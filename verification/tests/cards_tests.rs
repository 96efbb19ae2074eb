use store::CardSet;
use store::CardSpec;

fn card(name: &str, group: &str, tier: u32) -> CardSpec {
    CardSpec {
        name: name.to_string(),
        group: group.to_string(),
        tier,
        cost: vec![("wood".to_string(), 2)],
    }
}

#[test]
fn from_entries_buckets_by_tier() {
    let entries = vec![
        ("axe".to_string(), card("Axe", "tools", 1)),
        ("bow".to_string(), card("Bow", "weapons", 2)),
        ("cart".to_string(), card("Cart", "tools", 1)),
    ];
    let set = CardSet::from_entries(entries);
    assert_eq!(set.tiers.len(), 2);
    assert_eq!(set.tiers[0], vec!["axe".to_string(), "cart".to_string()]);
    assert_eq!(set.tiers[1], vec!["bow".to_string()]);
    assert_eq!(set.cards.len(), 3);
    assert_eq!(set.cards[1].0, "bow");
    assert_eq!(set.cards[1].1.tier, 2);
}

#[test]
fn from_entries_empty_specification() {
    let set = CardSet::from_entries(Vec::new());
    assert_eq!(set.tiers.len(), 1);
    assert!(set.tiers[0].is_empty());
    assert!(set.cards.is_empty());
}

#[test]
fn from_entries_skips_unused_tiers() {
    let entries = vec![("gem".to_string(), card("Gem", "loot", 3))];
    let set = CardSet::from_entries(entries);
    assert_eq!(set.tiers.len(), 3);
    assert!(set.tiers[0].is_empty());
    assert!(set.tiers[1].is_empty());
    assert_eq!(set.tiers[2], vec!["gem".to_string()]);
}

#[test]
fn get_card_from_tier_two_cards_picks_first() {
    let entries = vec![
        ("axe".to_string(), card("Axe", "tools", 1)),
        ("cart".to_string(), card("Cart", "tools", 1)),
    ];
    let set = CardSet::from_entries(entries);
    for _ in 0..16 {
        assert_eq!(set.get_card_from_tier(0), "axe");
    }
}

#[test]
fn get_card_from_tier_never_picks_last() {
    let entries = vec![
        ("axe".to_string(), card("Axe", "tools", 1)),
        ("bow".to_string(), card("Bow", "tools", 1)),
        ("cart".to_string(), card("Cart", "tools", 1)),
    ];
    let set = CardSet::from_entries(entries);
    for _ in 0..32 {
        let picked = set.get_card_from_tier(0);
        assert!(picked == "axe" || picked == "bow");
    }
}
