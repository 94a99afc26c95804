//! Teardown discipline for a channel endpoint.
//!
//! Releasing the channel takes up to two kernel actions: unmapping the
//! region (both sides) and unlinking the name (the owning writer only).
//! The actions are attempted independently: a failure of one never
//! suppresses the attempt at the other, both outcomes are retained as
//! warnings, and nothing escalates — there is no error path out of a
//! teardown, since process exit cannot be aborted for it. The driver that
//! performs the real kernel calls asks `next_action` what to attempt and
//! reports each outcome back.

use vstd::prelude::*;

verus! {

/// Which side of the channel is tearing down.
#[derive(Clone, Copy, Debug, PartialEq, Eq, Structural)]
pub enum Role {
    /// Owns the segment: unmaps, then unlinks the name.
    Writer,
    /// Holds only a view: unmaps, never unlinks.
    Reader,
}

/// The kernel action a teardown driver must attempt next.
#[derive(Clone, Copy, Debug, PartialEq, Eq, Structural)]
pub enum TeardownAction {
    Unmap,
    Unlink,
}

/// How far the teardown has progressed.
#[derive(Clone, Copy, Debug, PartialEq, Eq, Structural)]
pub enum TeardownPhase {
    Unmapping,
    Unlinking,
    Finished,
}

/// Progress of one endpoint's teardown, with the outcome of every attempt.
/// An outcome is `None` for success or `Some(errno)` for a failure.
#[derive(Clone, Copy, Debug)]
pub struct Teardown {
    pub role: Role,
    pub phase: TeardownPhase,
    pub unmap_errno: Option<i32>,
    pub unlink_errno: Option<i32>,
}

/// A teardown that has not attempted anything yet.
pub open spec fn spec_begin(role: Role) -> Teardown {
    Teardown { role, phase: TeardownPhase::Unmapping, unmap_errno: None, unlink_errno: None }
}

/// The action owed in each phase.
pub open spec fn spec_next_action(t: Teardown) -> Option<TeardownAction> {
    match t.phase {
        TeardownPhase::Unmapping => Some(TeardownAction::Unmap),
        TeardownPhase::Unlinking => Some(TeardownAction::Unlink),
        TeardownPhase::Finished => None,
    }
}

/// The state after the unmap attempt: its outcome is recorded and, for a
/// writer, the unlink is owed next — whatever the outcome was.
pub open spec fn spec_after_unmap(t: Teardown, errno: Option<i32>) -> Teardown {
    Teardown {
        phase: if t.role == Role::Writer {
            TeardownPhase::Unlinking
        } else {
            TeardownPhase::Finished
        },
        unmap_errno: errno,
        ..t
    }
}

/// The state after the unlink attempt: its outcome is recorded and the
/// teardown is finished — whatever the outcome was.
pub open spec fn spec_after_unlink(t: Teardown, errno: Option<i32>) -> Teardown {
    Teardown { phase: TeardownPhase::Finished, unlink_errno: errno, ..t }
}

impl Teardown {
    /// Start tearing an endpoint down.
    pub fn begin(role: Role) -> (t: Self)
        ensures
            t == spec_begin(role),
    {
        Teardown {
            role,
            phase: TeardownPhase::Unmapping,
            unmap_errno: None,
            unlink_errno: None,
        }
    }

    /// What the driver must attempt next; `None` once nothing is owed.
    pub fn next_action(&self) -> (a: Option<TeardownAction>)
        ensures
            a == spec_next_action(*self),
    {
        match self.phase {
            TeardownPhase::Unmapping => Some(TeardownAction::Unmap),
            TeardownPhase::Unlinking => Some(TeardownAction::Unlink),
            TeardownPhase::Finished => None,
        }
    }

    /// Report the unmap outcome. A failure is retained as a warning and
    /// never blocks the rest of the teardown.
    pub fn record_unmap(&mut self, errno: Option<i32>)
        requires
            old(self).phase == TeardownPhase::Unmapping,
        ensures
            *final(self) == spec_after_unmap(*old(self), errno),
    {
        self.unmap_errno = errno;
        self.phase = match self.role {
            Role::Writer => TeardownPhase::Unlinking,
            Role::Reader => TeardownPhase::Finished,
        };
    }

    /// Report the unlink outcome. A failure is retained as a warning; the
    /// teardown still finishes.
    pub fn record_unlink(&mut self, errno: Option<i32>)
        requires
            old(self).phase == TeardownPhase::Unlinking,
        ensures
            *final(self) == spec_after_unlink(*old(self), errno),
    {
        self.unlink_errno = errno;
        self.phase = TeardownPhase::Finished;
    }

    /// Whether every owed action has been attempted.
    pub fn finished(&self) -> (b: bool)
        ensures
            b == (self.phase == TeardownPhase::Finished),
    {
        match self.phase {
            TeardownPhase::Finished => true,
            _ => false,
        }
    }
}

} // verus!
