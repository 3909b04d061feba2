use ikki_session::errors::SessionError;
use ikki_session::sync::{percentage, SyncState};

#[test]
fn start_sync_occupies_the_syncing_state() {
    let mut s = SyncState::new();
    assert!(!s.is_syncing());
    assert_eq!(s.start_sync(true), Ok(()));
    assert!(s.is_syncing());
    assert!(s.is_first_sync);
    assert!(!s.is_cancelled());
}

#[test]
fn second_start_sync_fails_and_leaves_state_untouched() {
    let mut s = SyncState::new();
    assert_eq!(s.start_sync(true), Ok(()));
    s.update_progress(10, 100);
    let before = s;
    assert_eq!(s.start_sync(false), Err(SessionError::AlreadySyncing));
    assert_eq!(s, before);
    assert!(s.is_first_sync);
}

#[test]
fn end_sync_is_idempotent_and_safe_with_no_sync_active() {
    let mut s = SyncState::new();
    s.end_sync();
    assert!(!s.is_syncing());
    assert_eq!(s, SyncState::new());

    assert_eq!(s.start_sync(false), Ok(()));
    s.end_sync();
    let once = s;
    s.end_sync();
    assert_eq!(s, once);
    assert!(!s.is_syncing());
    assert!(!s.is_first_sync);
}

#[test]
fn start_after_end_succeeds_again() {
    let mut s = SyncState::new();
    assert_eq!(s.start_sync(true), Ok(()));
    s.end_sync();
    assert_eq!(s.start_sync(false), Ok(()));
    assert!(s.is_syncing());
    assert!(!s.is_first_sync);
}

#[test]
fn cancellation_is_visible_and_cleared_by_the_next_start() {
    let mut s = SyncState::new();
    assert_eq!(s.start_sync(false), Ok(()));
    assert!(!s.is_cancelled());
    s.request_cancel();
    assert!(s.is_cancelled());
    s.end_sync();
    assert!(s.is_cancelled());
    assert_eq!(s.start_sync(false), Ok(()));
    assert!(!s.is_cancelled());
}

#[test]
fn progress_and_percentage() {
    let mut s = SyncState::new();
    s.update_progress(50, 200);
    assert_eq!(s.get_progress(), (50, 200));
    let st = s.get_sync_status();
    assert_eq!(st.current_block, 50);
    assert_eq!(st.target_block, 200);
    assert_eq!(st.percentage, 25);
}

#[test]
fn percentage_treats_zero_target_as_zero() {
    assert_eq!(percentage(0, 0), 0);
    assert_eq!(percentage(7, 0), 0);
}

#[test]
fn percentage_is_clamped_to_one_hundred() {
    assert_eq!(percentage(300, 200), 100);
    assert_eq!(percentage(200, 200), 100);
    assert_eq!(percentage(199, 200), 99);
    assert_eq!(percentage(1, 3), 33);
    assert_eq!(percentage(u64::MAX, 1), 100);
}
