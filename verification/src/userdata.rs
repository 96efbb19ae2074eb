//! The user-data block of a connect token: how a player's name travels
//! to the server when a connection is made.
//!
//! The transport hands each connection a fixed 256-byte user-data block.
//! A client frames its name into that block as an eight-byte
//! little-endian length followed by the name's bytes, zero padded; the
//! server reads the length (clamped to the space a name can occupy) and
//! takes that many bytes back out. Turning the recovered bytes into text
//! is the transport edge's business; the framing itself round-trips, as
//! [`lemma_name_round_trip`] states.

use vstd::bytes::lemma_auto_spec_u64_to_from_le_bytes;
use vstd::bytes::spec_u64_from_le_bytes;
use vstd::bytes::spec_u64_to_le_bytes;
use vstd::bytes::u64_from_le_bytes;
use vstd::bytes::u64_to_le_bytes;
use vstd::prelude::*;
use vstd::slice::slice_subrange;

verus! {

/// Size in bytes of the user-data block a connect token carries.
pub const USER_DATA_BYTES: usize = 256;

/// How many bytes of a user-data block a name can occupy: everything
/// after the eight-byte length prefix.
pub const MAX_NAME_BYTES: usize = 248;

/// The user-data block framing the given name: the name's length as
/// eight little-endian bytes, the name itself, then zero padding.
pub open spec fn spec_user_data_with_name(name: Seq<u8>) -> Seq<u8> {
    spec_u64_to_le_bytes(name.len() as u64) + name + Seq::new(
        (MAX_NAME_BYTES - name.len()) as nat,
        |i: int| 0u8,
    )
}

/// The name bytes a user-data block frames: as many bytes after the
/// prefix as the prefix announces, clamped to the space a name can
/// occupy.
pub open spec fn spec_name_from_user_data(data: Seq<u8>) -> Seq<u8> {
    let announced = spec_u64_from_le_bytes(data.subrange(0, 8));
    let n: int = if announced < MAX_NAME_BYTES as u64 {
        announced as int
    } else {
        MAX_NAME_BYTES as int
    };
    data.subrange(8, 8 + n)
}

/// Frame a name into a fresh user-data block.
pub fn user_data_with_name(name: &[u8]) -> (out: Vec<u8>)
    requires
        name@.len() <= MAX_NAME_BYTES,
    ensures
        out@ == spec_user_data_with_name(name@),
        out@.len() == USER_DATA_BYTES,
{
    let mut out = u64_to_le_bytes(name.len() as u64);
    let n = name.len();
    let mut i: usize = 0;
    while i < n
        invariant
            n == name@.len() <= MAX_NAME_BYTES,
            i <= n,
            out@.len() == 8 + i,
            out@ == spec_u64_to_le_bytes(n as u64) + name@.subrange(0, i as int),
        decreases n - i,
    {
        out.push(name[i]);
        proof {
            assert(out@ =~= spec_u64_to_le_bytes(n as u64) + name@.subrange(0, i + 1));
        }
        i += 1;
    }
    while out.len() < USER_DATA_BYTES
        invariant
            n == name@.len() <= MAX_NAME_BYTES,
            8 + n <= out@.len() <= USER_DATA_BYTES,
            out@ == spec_u64_to_le_bytes(n as u64) + name@ + Seq::new(
                (out@.len() - 8 - n) as nat,
                |j: int| 0u8,
            ),
        decreases USER_DATA_BYTES - out.len(),
    {
        out.push(0u8);
        proof {
            assert(out@ =~= spec_u64_to_le_bytes(n as u64) + name@ + Seq::new(
                (out@.len() - 8 - n) as nat,
                |j: int| 0u8,
            ));
        }
    }
    proof {
        assert(name@.subrange(0, n as int) =~= name@);
        assert(out@ =~= spec_user_data_with_name(name@));
    }
    out
}

/// Read the framed name bytes back out of a user-data block.
pub fn name_from_user_data(user_data: &[u8]) -> (name: Vec<u8>)
    requires
        user_data@.len() == USER_DATA_BYTES,
    ensures
        name@ == spec_name_from_user_data(user_data@),
        name@.len() <= MAX_NAME_BYTES,
{
    let prefix = slice_subrange(user_data, 0, 8);
    let announced = u64_from_le_bytes(prefix);
    let n: usize = if announced < 248 {
        announced as usize
    } else {
        248
    };
    let mut name: Vec<u8> = Vec::new();
    let mut i: usize = 0;
    while i < n
        invariant
            n <= MAX_NAME_BYTES,
            user_data@.len() == USER_DATA_BYTES,
            i <= n,
            name@ == user_data@.subrange(8, 8 + i as int),
        decreases n - i,
    {
        name.push(user_data[8 + i]);
        proof {
            assert(name@ =~= user_data@.subrange(8, 8 + (i + 1)));
        }
        i += 1;
    }
    proof {
        assert(name@ =~= spec_name_from_user_data(user_data@));
    }
    name
}

/// Framing a name and reading it back returns the name unchanged, for
/// every name that fits a user-data block.
pub proof fn lemma_name_round_trip(name: Seq<u8>)
    requires
        name.len() <= MAX_NAME_BYTES,
    ensures
        spec_name_from_user_data(spec_user_data_with_name(name)) == name,
{
    lemma_auto_spec_u64_to_from_le_bytes();
    let data = spec_user_data_with_name(name);
    assert(data.subrange(0, 8) =~= spec_u64_to_le_bytes(name.len() as u64));
    assert(spec_u64_from_le_bytes(data.subrange(0, 8)) == name.len() as u64);
    assert(spec_name_from_user_data(data) =~= name);
}

} // verus!
