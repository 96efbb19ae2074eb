//! Card specifications bucketed by tier, with a random pick per tier.
//!
//! A card set is loaded from a specification the caller has already
//! turned into plain entries (the file reading and decoding live at the
//! application edge); building the per-tier buckets and picking a card
//! from a tier are the store's own logic.

use vstd::prelude::*;

verus! {

/// One card of a specification: its display name, the group it belongs
/// to, the tier it appears in and what it costs.
#[derive(Debug)]
pub struct CardSpec {
    pub name: String,
    pub group: String,
    pub tier: u32,
    pub cost: Vec<(String, u32)>,
}

/// Mathematical view of a [`CardSpec`].
pub struct CardSpecV {
    pub name: Seq<char>,
    pub group: Seq<char>,
    pub tier: u32,
    pub cost: Seq<(Seq<char>, u32)>,
}

impl View for CardSpec {
    type V = CardSpecV;

    open spec fn view(&self) -> CardSpecV {
        CardSpecV {
            name: self.name@,
            group: self.group@,
            tier: self.tier,
            cost: self.cost@.map_values(|c: (String, u32)| (c.0@, c.1)),
        }
    }
}

/// The view of a sequence of card entries, id and card.
pub open spec fn cards_view(cards: Seq<(String, CardSpec)>) -> Seq<(Seq<char>, CardSpecV)> {
    cards.map_values(|c: (String, CardSpec)| (c.0@, c.1@))
}

/// The view of the per-tier buckets of card ids.
pub open spec fn tiers_view(tiers: Seq<Vec<String>>) -> Seq<Seq<Seq<char>>> {
    tiers.map_values(|t: Vec<String>| t@.map_values(|s: String| s@))
}

/// A set of cards, bucketed by tier for easy lookups: `tiers[t]` holds
/// the ids of the cards of tier `t + 1`, in entry order.
#[derive(Debug)]
pub struct CardSet {
    pub tiers: Vec<Vec<String>>,
    pub cards: Vec<(String, CardSpec)>,
}

/// Mathematical view of a [`CardSet`].
pub struct CardSetV {
    pub tiers: Seq<Seq<Seq<char>>>,
    pub cards: Seq<(Seq<char>, CardSpecV)>,
}

impl View for CardSet {
    type V = CardSetV;

    open spec fn view(&self) -> CardSetV {
        CardSetV { tiers: tiers_view(self.tiers@), cards: cards_view(self.cards@) }
    }
}

/// The highest tier any card of the entries names, and at least 1, so
/// an empty specification still gets one (empty) bucket.
pub open spec fn max_tier(cards: Seq<(Seq<char>, CardSpecV)>) -> u32
    decreases cards.len(),
{
    if cards.len() == 0 {
        1u32
    } else {
        let m = max_tier(cards.drop_last());
        if cards.last().1.tier > m {
            cards.last().1.tier
        } else {
            m
        }
    }
}

/// The ids of the cards of tier `t`, in entry order.
pub open spec fn tier_ids(cards: Seq<(Seq<char>, CardSpecV)>, t: u32) -> Seq<Seq<char>>
    decreases cards.len(),
{
    if cards.len() == 0 {
        Seq::empty()
    } else {
        let front = tier_ids(cards.drop_last(), t);
        if cards.last().1.tier == t {
            front.push(cards.last().0)
        } else {
            front
        }
    }
}

/// Relies on rand's thread-local generator: `Rng::gen_range` over the
/// nonempty range `0..n` returns a value within it. Nothing more is
/// assumed of a random draw.
#[verifier::external_body]
fn pick_below(n: usize) -> (r: usize)
    requires
        n > 0,
    ensures
        r < n,
{
    rand::Rng::gen_range(&mut rand::thread_rng(), 0..n)
}

impl CardSet {
    /// Build a card set from its entries, bucketing the card ids by
    /// tier. Every card's tier must be at least 1 (tier numbering starts
    /// at 1; bucket `t` serves tier `t + 1`).
    pub fn from_entries(cards: Vec<(String, CardSpec)>) -> (r: CardSet)
        requires
            forall|i: int| 0 <= i < cards@.len() ==> 1 <= #[trigger] cards@[i].1.tier,
        ensures
            r@.cards == cards_view(cards@),
            r@.tiers.len() == max_tier(cards_view(cards@)),
            forall|t: int|
                0 <= t < r@.tiers.len() ==> r@.tiers[t] == tier_ids(
                    cards_view(cards@),
                    (t + 1) as u32,
                ),
    {
        let ghost cv: Seq<(Seq<char>, CardSpecV)> = cards_view(cards@);
        let n = cards.len();

        // Find the highest tier named by any card.
        let mut m: u32 = 1;
        let mut i: usize = 0;
        while i < n
            invariant
                n == cards@.len(),
                i <= n,
                cv == cards_view(cards@),
                m == max_tier(cv.subrange(0, i as int)),
            decreases n - i,
        {
            proof {
                assert(cv.subrange(0, i + 1).drop_last() =~= cv.subrange(0, i as int));
                assert(cv.subrange(0, i + 1).last() == cv[i as int]);
            }
            if cards[i].1.tier > m {
                m = cards[i].1.tier;
            }
            i += 1;
        }
        proof {
            assert(cv.subrange(0, n as int) =~= cv);
        }

        // Collect each tier's card ids, in entry order.
        let mut tiers: Vec<Vec<String>> = Vec::new();
        let mut t: u32 = 0;
        while t < m
            invariant
                n == cards@.len(),
                cv == cards_view(cards@),
                m == max_tier(cv),
                t <= m,
                tiers@.len() == t,
                forall|u: int|
                    0 <= u < t ==> tiers_view(tiers@)[u] == tier_ids(cv, (u + 1) as u32),
            decreases m - t,
        {
            let tv: u32 = t + 1;
            let mut bucket: Vec<String> = Vec::new();
            let mut j: usize = 0;
            while j < n
                invariant
                    n == cards@.len(),
                    cv == cards_view(cards@),
                    j <= n,
                    bucket@.map_values(|s: String| s@) == tier_ids(
                        cv.subrange(0, j as int),
                        tv,
                    ),
                decreases n - j,
            {
                proof {
                    assert(cv.subrange(0, j + 1).drop_last() =~= cv.subrange(0, j as int));
                    assert(cv.subrange(0, j + 1).last() == cv[j as int]);
                }
                if cards[j].1.tier == tv {
                    bucket.push(cards[j].0.clone());
                    proof {
                        assert(bucket@.map_values(|s: String| s@) =~= tier_ids(
                            cv.subrange(0, j + 1),
                            tv,
                        ));
                    }
                } else {
                    proof {
                        assert(bucket@.map_values(|s: String| s@) =~= tier_ids(
                            cv.subrange(0, j + 1),
                            tv,
                        ));
                    }
                }
                j += 1;
            }
            proof {
                assert(cv.subrange(0, n as int) =~= cv);
            }
            let ghost tiers_prev: Seq<Vec<String>> = tiers@;
            tiers.push(bucket);
            proof {
                assert forall|u: int| 0 <= u < t + 1 implies tiers_view(tiers@)[u] == tier_ids(
                    cv,
                    (u + 1) as u32,
                ) by {
                    if u < t {
                        assert(tiers@[u] == tiers_prev[u]);
                        assert(tiers_view(tiers_prev)[u] == tier_ids(cv, (u + 1) as u32));
                    } else {
                        assert(tiers_view(tiers@)[u] =~= tier_ids(cv, tv));
                    }
                }
            }
            t += 1;
        }

        let r = CardSet { tiers, cards };
        r
    }

    /// Pick a card id from the given tier's bucket, at random. The
    /// bucket must hold at least two ids; the draw never lands on the
    /// bucket's last id.
    pub fn get_card_from_tier(&self, tier: usize) -> (r: String)
        requires
            tier < self@.tiers.len(),
            self@.tiers[tier as int].len() >= 2,
        ensures
            exists|i: int|
                0 <= i < self@.tiers[tier as int].len() - 1 && r@ == self@.tiers[tier as int][i],
    {
        let bucket = &self.tiers[tier];
        let idx = pick_below(bucket.len() - 1);
        let r = bucket[idx].clone();
        proof {
            assert(self@.tiers[tier as int][idx as int] == bucket@[idx as int]@);
        }
        r
    }
}

} // verus!
