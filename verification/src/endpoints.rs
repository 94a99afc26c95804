//! Typed endpoints: the writer and reader of each status channel.
//!
//! Each endpoint fixes a channel name and a record type over the byte
//! channel: the writer creates and owns the segment and publishes whole
//! records; the reader opens an existing segment and polls value copies.
//! Closing an endpoint consumes it, so nothing can be published or polled
//! after teardown.

use vstd::prelude::*;

use crate::channel::{
    has_live, live_index_of, spec_create, spec_create_index, spec_poll, spec_publish, spec_unlink,
    ChannelError, ReaderHandle, SegmentModel, ShmSpace, WriterHandle,
};
use crate::codec::{
    game_status_to_bytes, server_status_of_bytes, server_status_to_bytes, spec_game_status_bytes,
    spec_server_status_bytes, spec_server_status_of_bytes,
};
use crate::{
    game_server_status_name, server_status_name, GameServerStatus, ServerStatus,
    GAME_SERVER_STATUS_LEN, SERVER_STATUS_LEN,
};

verus! {

/// The writing end of the server-status channel. Owns the segment: creates
/// and sizes it on construction, unlinks it on close.
pub struct ServerStatusWriter {
    pub handle: WriterHandle,
}

impl ServerStatusWriter {
    /// The mapping is established and sized for exactly one record.
    pub open spec fn wf(self, ns: Seq<SegmentModel>) -> bool {
        &&& self.handle.valid(ns)
        &&& self.handle.len == SERVER_STATUS_LEN
        &&& self.handle.name@ == "/server_status"@
    }

    /// Create (or reopen) the server-status segment, sized to one record,
    /// zero-filled when fresh, and mapped for writing. In this model the
    /// record length is fixed and positive, so construction always
    /// succeeds; the fallible kernel calls live with the driver.
    pub fn try_new(ns: &mut ShmSpace) -> (r: Result<Self, ChannelError>)
        requires
            old(ns).wf(),
        ensures
            final(ns).wf(),
            r matches Ok(w) && ({
                &&& final(ns)@ =~= spec_create(old(ns)@, "/server_status"@, SERVER_STATUS_LEN as nat)
                &&& w.handle.index as int == spec_create_index(old(ns)@, "/server_status"@)
                &&& w.wf(final(ns)@)
            }),
    {
        let name = server_status_name();
        match ns.create_writer_channel(&name, SERVER_STATUS_LEN) {
            Ok(handle) => Ok(ServerStatusWriter { handle }),
            Err(e) => Err(e),
        }
    }

    /// Publish: one whole-record volatile store. Overwrites whatever the
    /// slot held; never fails once the mapping exists.
    pub fn write(&self, ns: &mut ShmSpace, status: ServerStatus)
        requires
            old(ns).wf(),
            self.wf(old(ns)@),
        ensures
            final(ns).wf(),
            self.wf(final(ns)@),
            final(ns)@ =~= spec_publish(
                old(ns)@,
                self.handle.index as int,
                spec_server_status_bytes(status),
            ),
    {
        let bytes = server_status_to_bytes(&status);
        ns.publish_bytes(&self.handle, &bytes);
    }

    /// Teardown: unmap (the handle is consumed) and unlink the name, each
    /// attempted independently. Returns whether the name was still there
    /// to unlink; an absent name is reported, never escalated.
    pub fn close(self, ns: &mut ShmSpace) -> (unlinked: bool)
        requires
            old(ns).wf(),
        ensures
            final(ns).wf(),
            unlinked == has_live(old(ns)@, self.handle.name@),
            final(ns)@ =~= spec_unlink(old(ns)@, self.handle.name@),
    {
        ns.close_writer(self.handle)
    }
}

/// The reading end of the server-status channel. Holds only a view: never
/// creates, resizes, or unlinks the segment.
pub struct ServerStatusReader {
    pub handle: ReaderHandle,
}

impl ServerStatusReader {
    /// The mapping is established and covers at least one record.
    pub open spec fn wf(self, ns: Seq<SegmentModel>) -> bool {
        &&& self.handle.valid(ns)
        &&& self.handle.len == SERVER_STATUS_LEN
    }

    /// Open the existing server-status segment read-only. Reports
    /// `NotFound` when no writer has created it (or it was torn down) —
    /// the expected "server not running" condition — and creates nothing
    /// in that case or any other.
    pub fn try_new(ns: &ShmSpace) -> (r: Result<Self, ChannelError>)
        requires
            ns.wf(),
        ensures
            !has_live(ns@, "/server_status"@) ==> (r matches Err(e) && e
                == ChannelError::NotFound),
            has_live(ns@, "/server_status"@) && ns@[live_index_of(
                ns@,
                "/server_status"@,
            )].data.len() < SERVER_STATUS_LEN ==> (r matches Err(e) && e
                == ChannelError::MapFailed),
            has_live(ns@, "/server_status"@) && ns@[live_index_of(
                ns@,
                "/server_status"@,
            )].data.len() >= SERVER_STATUS_LEN ==> (r matches Ok(rd) && ({
                &&& rd.handle.index as int == live_index_of(ns@, "/server_status"@)
                &&& rd.wf(ns@)
            })),
    {
        let name = server_status_name();
        match ns.open_reader_channel(&name, SERVER_STATUS_LEN) {
            Ok(handle) => Ok(ServerStatusReader { handle }),
            Err(e) => Err(e),
        }
    }

    /// Poll: one whole-record volatile load, returned as a value copy.
    /// Never fails once the mapping exists: it observes the last published
    /// record, or the all-zero record before the first publish, and keeps
    /// working after the writer unlinks the name.
    pub fn read(&self, ns: &ShmSpace) -> (status: ServerStatus)
        requires
            self.wf(ns@),
        ensures
            status == spec_server_status_of_bytes(
                spec_poll(ns@, self.handle.index as int, SERVER_STATUS_LEN as int),
            ),
    {
        let bytes = ns.poll_bytes(&self.handle);
        server_status_of_bytes(bytes.as_slice())
    }

    /// Teardown: unmap only. Consuming the reader is the unmap; a reader
    /// never unlinks the name, and nothing in the namespace changes.
    pub fn close(self) {
        self.handle.close();
    }
}

/// The writing end of the game-server-status channel: the same owning
/// protocol as `ServerStatusWriter`, over the 4-byte game record.
pub struct GameServerStatusWriter {
    pub handle: WriterHandle,
}

impl GameServerStatusWriter {
    /// The mapping is established and sized for exactly one game record.
    pub open spec fn wf(self, ns: Seq<SegmentModel>) -> bool {
        &&& self.handle.valid(ns)
        &&& self.handle.len == GAME_SERVER_STATUS_LEN
        &&& self.handle.name@ == "/game_server_status"@
    }

    /// Create (or reopen) the game-server-status segment, sized to one
    /// record, zero-filled when fresh, and mapped for writing.
    pub fn try_new(ns: &mut ShmSpace) -> (r: Result<Self, ChannelError>)
        requires
            old(ns).wf(),
        ensures
            final(ns).wf(),
            r matches Ok(w) && ({
                &&& final(ns)@ =~= spec_create(
                    old(ns)@,
                    "/game_server_status"@,
                    GAME_SERVER_STATUS_LEN as nat,
                )
                &&& w.handle.index as int == spec_create_index(old(ns)@, "/game_server_status"@)
                &&& w.wf(final(ns)@)
            }),
    {
        let name = game_server_status_name();
        match ns.create_writer_channel(&name, GAME_SERVER_STATUS_LEN) {
            Ok(handle) => Ok(GameServerStatusWriter { handle }),
            Err(e) => Err(e),
        }
    }

    /// Publish: one whole-record volatile store of the game record.
    pub fn write(&self, ns: &mut ShmSpace, status: GameServerStatus)
        requires
            old(ns).wf(),
            self.wf(old(ns)@),
        ensures
            final(ns).wf(),
            self.wf(final(ns)@),
            final(ns)@ =~= spec_publish(
                old(ns)@,
                self.handle.index as int,
                spec_game_status_bytes(status),
            ),
    {
        let bytes = game_status_to_bytes(&status);
        ns.publish_bytes(&self.handle, &bytes);
    }

    /// Teardown: unmap (the handle is consumed) and unlink the name, each
    /// attempted independently.
    pub fn close(self, ns: &mut ShmSpace) -> (unlinked: bool)
        requires
            old(ns).wf(),
        ensures
            final(ns).wf(),
            unlinked == has_live(old(ns)@, self.handle.name@),
            final(ns)@ =~= spec_unlink(old(ns)@, self.handle.name@),
    {
        ns.close_writer(self.handle)
    }
}

} // verus!
