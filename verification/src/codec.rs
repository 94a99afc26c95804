//! Byte layout of the status records.
//!
//! A segment carries exactly the record's bytes: no header, no version
//! field. The records are laid out as little-endian integers, so the
//! layout is fixed across every process that opens the same channel name.

use vstd::prelude::*;
use vstd::bytes::*;

use crate::{GameServerStatus, ServerStatus, GAME_SERVER_STATUS_LEN, SERVER_STATUS_LEN};

verus! {

/// The sequence of `n` zero bytes: the content of a freshly created segment.
pub open spec fn zero_bytes(n: nat) -> Seq<u8> {
    Seq::new(n, |i: int| 0u8)
}

/// Segment image of a `ServerStatus`.
pub open spec fn spec_server_status_bytes(v: ServerStatus) -> Seq<u8> {
    spec_u64_to_le_bytes(v.user_count as u64)
}

/// `ServerStatus` read back from a segment image.
pub open spec fn spec_server_status_of_bytes(s: Seq<u8>) -> ServerStatus
    recommends
        s.len() == SERVER_STATUS_LEN,
{
    ServerStatus { user_count: spec_u64_from_le_bytes(s) as usize }
}

/// Segment image of a `GameServerStatus`.
pub open spec fn spec_game_status_bytes(v: GameServerStatus) -> Seq<u8> {
    spec_u32_to_le_bytes(v.user_count)
}

/// `GameServerStatus` read back from a segment image.
pub open spec fn spec_game_status_of_bytes(s: Seq<u8>) -> GameServerStatus
    recommends
        s.len() == GAME_SERVER_STATUS_LEN,
{
    GameServerStatus { user_count: spec_u32_from_le_bytes(s) }
}

/// Encode a `ServerStatus` for publication into a segment.
pub fn server_status_to_bytes(v: &ServerStatus) -> (out: Vec<u8>)
    ensures
        out@ == spec_server_status_bytes(*v),
        out@.len() == SERVER_STATUS_LEN,
{
    proof {
        lemma_auto_spec_u64_to_from_le_bytes();
    }
    u64_to_le_bytes(v.user_count as u64)
}

/// Decode the `ServerStatus` held by a polled segment image.
pub fn server_status_of_bytes(s: &[u8]) -> (v: ServerStatus)
    requires
        s@.len() == SERVER_STATUS_LEN,
    ensures
        v == spec_server_status_of_bytes(s@),
{
    let x = u64_from_le_bytes(s);
    ServerStatus { user_count: #[verifier::truncate] (x as usize) }
}

/// Encode a `GameServerStatus` for publication into a segment.
pub fn game_status_to_bytes(v: &GameServerStatus) -> (out: Vec<u8>)
    ensures
        out@ == spec_game_status_bytes(*v),
        out@.len() == GAME_SERVER_STATUS_LEN,
{
    proof {
        lemma_auto_spec_u32_to_from_le_bytes();
    }
    u32_to_le_bytes(v.user_count)
}

/// Decode the `GameServerStatus` held by a polled segment image.
pub fn game_status_of_bytes(s: &[u8]) -> (v: GameServerStatus)
    requires
        s@.len() == GAME_SERVER_STATUS_LEN,
    ensures
        v == spec_game_status_of_bytes(s@),
{
    GameServerStatus { user_count: u32_from_le_bytes(s) }
}

/// Decoding inverts encoding: a reader that sees exactly the bytes a writer
/// published recovers the record the writer passed in.
pub proof fn lemma_server_status_round_trip(v: ServerStatus)
    ensures
        spec_server_status_bytes(v).len() == SERVER_STATUS_LEN,
        spec_server_status_of_bytes(spec_server_status_bytes(v)) == v,
{
    lemma_auto_spec_u64_to_from_le_bytes();
}

/// Decoding inverts encoding for the game-server record as well.
pub proof fn lemma_game_status_round_trip(v: GameServerStatus)
    ensures
        spec_game_status_bytes(v).len() == GAME_SERVER_STATUS_LEN,
        spec_game_status_of_bytes(spec_game_status_bytes(v)) == v,
{
    lemma_auto_spec_u32_to_from_le_bytes();
    assert(spec_u32_to_le_bytes(v.user_count).len() == 4);
    assert(spec_u32_from_le_bytes(spec_u32_to_le_bytes(v.user_count)) == v.user_count);
}

/// An all-zero segment image decodes to the all-zero record: what a reader
/// observes after the writer created the segment but before any publish.
pub proof fn lemma_zero_bytes_decode_default(s: Seq<u8>)
    requires
        s.len() == SERVER_STATUS_LEN,
        forall|i: int| 0 <= i < s.len() ==> s[i] == 0,
    ensures
        spec_server_status_of_bytes(s) == (ServerStatus { user_count: 0 }),
{
    lemma_auto_spec_u64_to_from_le_bytes();
    spec_u64_to_le_bytes_to_open(0);
    assert(spec_u64_to_le_bytes_open(0) =~= s) by {
        assert(0u64 & 0xff == 0) by (bit_vector);
        assert(forall|k: u64| 0 < k < 64 ==> ((0u64 >> k) & 0xff == 0)) by (bit_vector);
    }
    assert(spec_u64_from_le_bytes(spec_u64_to_le_bytes(0)) == 0);
}

} // verus!
