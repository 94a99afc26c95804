use status_channel::teardown::{Role, Teardown, TeardownAction, TeardownPhase};

// A writer owes an unmap and then an unlink; a failed unmap is recorded as
// a warning and the unlink is still attempted; a failed unlink is recorded
// too; the teardown finishes either way.
#[test]
fn writer_teardown_attempts_unlink_after_failed_unmap() {
    let mut t = Teardown::begin(Role::Writer);
    assert_eq!(t.next_action(), Some(TeardownAction::Unmap));
    t.record_unmap(Some(22));
    assert_eq!(t.next_action(), Some(TeardownAction::Unlink));
    t.record_unlink(Some(2));
    assert_eq!(t.next_action(), None);
    assert!(t.finished());
    assert_eq!(t.unmap_errno, Some(22));
    assert_eq!(t.unlink_errno, Some(2));
}

#[test]
fn writer_teardown_clean_run() {
    let mut t = Teardown::begin(Role::Writer);
    assert_eq!(t.phase, TeardownPhase::Unmapping);
    t.record_unmap(None);
    assert_eq!(t.next_action(), Some(TeardownAction::Unlink));
    t.record_unlink(None);
    assert!(t.finished());
    assert_eq!(t.unmap_errno, None);
    assert_eq!(t.unlink_errno, None);
}

#[test]
fn writer_teardown_reports_failed_unlink_after_clean_unmap() {
    let mut t = Teardown::begin(Role::Writer);
    t.record_unmap(None);
    t.record_unlink(Some(13));
    assert!(t.finished());
    assert_eq!(t.unmap_errno, None);
    assert_eq!(t.unlink_errno, Some(13));
}

// A reader only unmaps: after the unmap — failed or not — nothing more is
// owed, and in particular no unlink.
#[test]
fn reader_teardown_never_unlinks() {
    let mut t = Teardown::begin(Role::Reader);
    assert_eq!(t.next_action(), Some(TeardownAction::Unmap));
    t.record_unmap(Some(22));
    assert_eq!(t.next_action(), None);
    assert!(t.finished());
    assert_eq!(t.unmap_errno, Some(22));
    assert_eq!(t.unlink_errno, None);
}
