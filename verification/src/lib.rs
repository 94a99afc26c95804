//! A single-slot status channel over named shared memory.
//!
//! One writer process publishes a small fixed-layout status record into a
//! named shared-memory segment; any number of reader processes poll the
//! latest value. This crate holds the verified core: the record types and
//! their byte layout, the lifecycle of the named segment (create, resize,
//! map, unmap, unlink) as a state machine over a model of the kernel's
//! shared-memory namespace, and the teardown discipline that releases the
//! segment on every exit path. The process glue (the real kernel calls and
//! the timer loops) lives outside the verified core and drives these types.

use vstd::prelude::*;

pub mod channel;
pub mod codec;
pub mod endpoints;
pub mod laws;
pub mod teardown;

verus! {

/// Number of bytes a `ServerStatus` occupies in a segment.
pub const SERVER_STATUS_LEN: usize = 8;

/// Number of bytes a `GameServerStatus` occupies in a segment.
pub const GAME_SERVER_STATUS_LEN: usize = 4;

/// The status record published by the server: a single unsigned counter.
///
/// A fixed-size plain value with no pointers and no variable-length data;
/// the all-zero value is the well-defined initial state a reader may
/// observe before the first publish.
#[derive(Clone, Copy, Debug, PartialEq, Eq, Structural)]
pub struct ServerStatus {
    pub user_count: usize,
}

impl Default for ServerStatus {
    /// The all-zero record, safe to observe before the first publish.
    fn default() -> (r: Self)
        ensures
            r == (ServerStatus { user_count: 0 }),
    {
        ServerStatus { user_count: 0 }
    }
}

/// The status record published by the game server: a 4-byte counter.
#[derive(Clone, Copy, Debug, PartialEq, Eq, Structural)]
pub struct GameServerStatus {
    pub user_count: u32,
}

impl Default for GameServerStatus {
    /// The all-zero record, safe to observe before the first publish.
    fn default() -> (r: Self)
        ensures
            r == (GameServerStatus { user_count: 0 }),
    {
        GameServerStatus { user_count: 0 }
    }
}

/// Name of the server-status segment in the shared-memory namespace.
pub fn server_status_name() -> (name: String)
    ensures
        name@ == "/server_status"@,
{
    "/server_status".to_owned()
}

/// Name of the game-server-status segment in the shared-memory namespace.
pub fn game_server_status_name() -> (name: String)
    ensures
        name@ == "/game_server_status"@,
{
    "/game_server_status".to_owned()
}

} // verus!
