//! The channel's cross-function guarantees, stated once and proved.
//!
//! Each law is phrased over the spec-level namespace transitions that the
//! executable operations are specified by (`spec_publish`, `spec_poll`,
//! `spec_unlink`, and the teardown transitions), so it covers every run of
//! the corresponding executable calls.

use vstd::prelude::*;

use crate::channel::{
    has_live, live_index_of, seg_is, spec_poll, spec_publish, spec_unlink, wf_namespace,
    SegmentModel,
};
use crate::codec::{
    lemma_game_status_round_trip, lemma_server_status_round_trip, lemma_zero_bytes_decode_default,
    spec_game_status_bytes, spec_game_status_of_bytes, spec_server_status_bytes,
    spec_server_status_of_bytes, zero_bytes,
};
use crate::teardown::{
    spec_after_unlink, spec_after_unmap, spec_begin, spec_next_action, Role, TeardownAction,
    TeardownPhase,
};
use crate::{GameServerStatus, ServerStatus, GAME_SERVER_STATUS_LEN, SERVER_STATUS_LEN};

verus! {

/// Round trip: however the namespace looked before, a poll that follows a
/// publish of `v` into the same segment, with no publish in between,
/// observes exactly `v`.
pub proof fn lemma_publish_poll_round_trip(ns: Seq<SegmentModel>, i: int, v: ServerStatus)
    requires
        0 <= i < ns.len(),
    ensures
        spec_server_status_of_bytes(
            spec_poll(spec_publish(ns, i, spec_server_status_bytes(v)), i, SERVER_STATUS_LEN as int),
        ) == v,
{
    lemma_server_status_round_trip(v);
    let b = spec_server_status_bytes(v);
    assert(spec_publish(ns, i, b)[i].data == b);
    assert(b.take(SERVER_STATUS_LEN as int) =~= b);
}

/// The same round trip holds on the game-server channel, which carries the
/// identical protocol over its own record layout.
pub proof fn lemma_game_publish_poll_round_trip(ns: Seq<SegmentModel>, i: int, v: GameServerStatus)
    requires
        0 <= i < ns.len(),
    ensures
        spec_game_status_of_bytes(
            spec_poll(
                spec_publish(ns, i, spec_game_status_bytes(v)),
                i,
                GAME_SERVER_STATUS_LEN as int,
            ),
        ) == v,
{
    lemma_game_status_round_trip(v);
    let b = spec_game_status_bytes(v);
    assert(spec_publish(ns, i, b)[i].data == b);
    assert(b.take(GAME_SERVER_STATUS_LEN as int) =~= b);
}

/// Default visibility: a poll of a segment still holding its creation-time
/// zero fill — before any publish — observes the all-zero record.
pub proof fn lemma_default_visibility(ns: Seq<SegmentModel>, i: int)
    requires
        0 <= i < ns.len(),
        ns[i].data == zero_bytes(SERVER_STATUS_LEN as nat),
    ensures
        spec_server_status_of_bytes(spec_poll(ns, i, SERVER_STATUS_LEN as int)) == (ServerStatus {
            user_count: 0,
        }),
{
    let z = zero_bytes(SERVER_STATUS_LEN as nat);
    assert(z.take(SERVER_STATUS_LEN as int) =~= z);
    lemma_zero_bytes_decode_default(z);
}

/// Last write wins: publishing `v1` and then `v2` into the same segment
/// leaves the namespace exactly as a single publish of `v2` would have,
/// and any later poll observes `v2` — never `v1`.
pub proof fn lemma_last_write_wins(ns: Seq<SegmentModel>, i: int, v1: ServerStatus, v2: ServerStatus)
    requires
        0 <= i < ns.len(),
    ensures
        spec_publish(
            spec_publish(ns, i, spec_server_status_bytes(v1)),
            i,
            spec_server_status_bytes(v2),
        ) =~= spec_publish(ns, i, spec_server_status_bytes(v2)),
        spec_server_status_of_bytes(
            spec_poll(
                spec_publish(
                    spec_publish(ns, i, spec_server_status_bytes(v1)),
                    i,
                    spec_server_status_bytes(v2),
                ),
                i,
                SERVER_STATUS_LEN as int,
            ),
        ) == v2,
        v1 != v2 ==> spec_server_status_of_bytes(
            spec_poll(
                spec_publish(
                    spec_publish(ns, i, spec_server_status_bytes(v1)),
                    i,
                    spec_server_status_bytes(v2),
                ),
                i,
                SERVER_STATUS_LEN as int,
            ),
        ) != v1,
{
    lemma_server_status_round_trip(v2);
    let b1 = spec_server_status_bytes(v1);
    let b2 = spec_server_status_bytes(v2);
    assert(spec_publish(spec_publish(ns, i, b1), i, b2) =~= spec_publish(ns, i, b2));
    assert(b2.take(SERVER_STATUS_LEN as int) =~= b2);
}

/// Channel isolation: a publish into one segment leaves every other
/// segment — in particular every other named channel — untouched.
pub proof fn lemma_publish_isolated(ns: Seq<SegmentModel>, i: int, bytes: Seq<u8>, j: int)
    requires
        0 <= i < ns.len(),
        0 <= j < ns.len(),
        j != i,
    ensures
        spec_publish(ns, i, bytes)[j] == ns[j],
{
}

/// Teardown independence: for a writer, the unlink is owed and attempted
/// whatever the unmap attempt returned; both outcomes are reported; and
/// the teardown always finishes — neither failure escalates past it.
pub proof fn lemma_teardown_independence(unmap_errno: Option<i32>, unlink_errno: Option<i32>)
    ensures
        ({
            let t1 = spec_after_unmap(spec_begin(Role::Writer), unmap_errno);
            let t2 = spec_after_unlink(t1, unlink_errno);
            &&& spec_next_action(t1) == Some(TeardownAction::Unlink)
            &&& t2.phase == TeardownPhase::Finished
            &&& t2.unmap_errno == unmap_errno
            &&& t2.unlink_errno == unlink_errno
        }),
{
}

/// A reader tears down with the unmap alone: no unlink is ever owed.
pub proof fn lemma_reader_never_unlinks(unmap_errno: Option<i32>)
    ensures
        ({
            let t1 = spec_after_unmap(spec_begin(Role::Reader), unmap_errno);
            &&& spec_next_action(t1) is None
            &&& t1.phase == TeardownPhase::Finished
            &&& t1.unmap_errno == unmap_errno
        }),
{
}

/// Absence after teardown: once a name is unlinked, no segment is
/// reachable under it any more, so a later reader open reports the
/// channel as not found.
pub proof fn lemma_unlink_hides_name(ns: Seq<SegmentModel>, name: Seq<char>)
    requires
        wf_namespace(ns),
    ensures
        !has_live(spec_unlink(ns, name), name),
{
    if has_live(ns, name) {
        let i = live_index_of(ns, name);
        assert(0 <= i < ns.len() && seg_is(ns[i], name));
        let ns1 = spec_unlink(ns, name);
        if has_live(ns1, name) {
            let j = choose|j: int| 0 <= j < ns1.len() && seg_is(ns1[j], name);
            assert(j != i);
            assert(ns1[j] == ns[j]);
            assert(ns[i].name != ns[j].name);
            assert(false);
        }
    }
}

} // verus!
