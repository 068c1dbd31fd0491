use firebase_wasm::storage::{TaskState, UploadSnapshot};
use firebase_wasm::upload::{UploadPoll, UploadProgressAdapter};

type Snap = UploadSnapshot<u32>;
type Adapter = UploadProgressAdapter<Snap, String, u32>;

fn snap(done: u64, total: u64) -> Snap {
    UploadSnapshot {
        bytes_transferred: done,
        total_bytes: total,
        state: TaskState::Running,
        task: 7,
    }
}

fn progress_of(p: UploadPoll<Snap, String>) -> (u64, u64) {
    match p {
        UploadPoll::Progress(s) => {
            assert!(matches!(s.state, TaskState::Running));
            (s.bytes_transferred, s.total_bytes)
        }
        _ => panic!("expected a progress snapshot"),
    }
}

#[test]
fn progress_then_completion_then_exhausted() {
    let mut a = Adapter::new();
    a.on_progress(snap(500, 1000));
    assert_eq!(progress_of(a.poll(1)), (500, 1000));
    a.on_progress(snap(1000, 1000));
    a.on_complete();
    assert_eq!(progress_of(a.poll(1)), (1000, 1000));
    assert!(matches!(a.poll(1), UploadPoll::Exhausted));
}

#[test]
fn error_is_returned_once_then_exhausted() {
    let mut a = Adapter::new();
    a.on_error("network-failure".to_string());
    match a.poll(1) {
        UploadPoll::Failed(e) => assert_eq!(e, "network-failure"),
        _ => panic!("expected the error"),
    }
    assert!(matches!(a.poll(1), UploadPoll::Exhausted));
}

#[test]
fn rapid_snapshots_collapse_to_newest() {
    let mut a = Adapter::new();
    a.on_progress(snap(100, 1000));
    a.on_progress(snap(200, 1000));
    a.on_progress(snap(300, 1000));
    assert_eq!(progress_of(a.poll(1)), (300, 1000));
    assert!(matches!(a.poll(1), UploadPoll::NotReady));
}

#[test]
fn drop_without_polling_unsubscribes_once() {
    let mut a = Adapter::new();
    assert!(a.release());
    assert!(!a.release());
}

#[test]
fn unsubscribe_once_after_completion() {
    let mut a = Adapter::new();
    a.on_progress(snap(10, 10));
    assert_eq!(progress_of(a.poll(3)), (10, 10));
    a.on_complete();
    assert!(matches!(a.poll(3), UploadPoll::Exhausted));
    assert!(a.release());
    assert!(!a.release());
}

#[test]
fn error_wins_over_buffered_snapshot() {
    let mut a = Adapter::new();
    a.on_progress(snap(400, 1000));
    a.on_error("storage/canceled".to_string());
    a.on_progress(snap(500, 1000));
    match a.poll(1) {
        UploadPoll::Failed(e) => assert_eq!(e, "storage/canceled"),
        _ => panic!("expected the error"),
    }
    assert!(matches!(a.poll(1), UploadPoll::Exhausted));
}

#[test]
fn exhaustion_is_final() {
    let mut a = Adapter::new();
    a.on_progress(snap(900, 1000));
    a.on_complete();
    assert_eq!(progress_of(a.poll(1)), (900, 1000));
    assert!(matches!(a.poll(2), UploadPoll::Exhausted));
    assert!(matches!(a.poll(3), UploadPoll::Exhausted));
    a.on_complete();
    assert!(matches!(a.poll(4), UploadPoll::Exhausted));
    assert!(a.release());
    assert!(matches!(a.poll(5), UploadPoll::Exhausted));
}

#[test]
fn idle_poll_only_records_waker() {
    let mut a = Adapter::new();
    assert!(a.waker().is_none());
    assert!(matches!(a.poll(41), UploadPoll::NotReady));
    assert_eq!(a.waker(), Some(&41));
    assert!(matches!(a.poll(42), UploadPoll::NotReady));
    assert_eq!(a.waker(), Some(&42));
    a.on_progress(snap(1, 2));
    assert_eq!(progress_of(a.poll(43)), (1, 2));
}

#[test]
fn callbacks_wake_only_after_a_poll() {
    let mut a = Adapter::new();
    assert!(!a.on_progress(snap(1, 4)));
    assert_eq!(progress_of(a.poll(5)), (1, 4));
    assert!(a.on_progress(snap(2, 4)));
    assert!(a.on_complete());
    let mut b = Adapter::new();
    assert!(!b.on_error("x".to_string()));
    assert!(matches!(b.poll(6), UploadPoll::Failed(_)));
    assert!(b.on_error("y".to_string()));
}

#[test]
fn late_progress_after_completion_is_ignored() {
    let mut a = Adapter::new();
    a.on_complete();
    assert!(matches!(a.poll(1), UploadPoll::Exhausted));
    a.on_progress(snap(700, 1000));
    assert!(matches!(a.poll(2), UploadPoll::Exhausted));
    a.on_progress(snap(800, 1000));
    a.on_progress(snap(900, 1000));
    assert!(matches!(a.poll(3), UploadPoll::Exhausted));
}

#[test]
fn late_progress_after_error_is_ignored() {
    let mut a = Adapter::new();
    a.on_error("storage/unknown".to_string());
    assert!(matches!(a.poll(1), UploadPoll::Failed(_)));
    a.on_progress(snap(700, 1000));
    assert!(matches!(a.poll(2), UploadPoll::Exhausted));
}

#[test]
fn late_error_after_terminal_result_is_not_returned() {
    let mut a = Adapter::new();
    a.on_complete();
    assert!(matches!(a.poll(1), UploadPoll::Exhausted));
    a.on_error("late".to_string());
    assert!(matches!(a.poll(2), UploadPoll::Exhausted));
    let mut b = Adapter::new();
    b.on_error("first".to_string());
    match b.poll(1) {
        UploadPoll::Failed(e) => assert_eq!(e, "first"),
        _ => panic!("expected the error"),
    }
    b.on_error("second".to_string());
    b.on_progress(snap(5, 10));
    assert!(matches!(b.poll(2), UploadPoll::Exhausted));
}

#[test]
fn progress_after_completion_before_poll_is_stored() {
    let mut a = Adapter::new();
    a.on_progress(snap(4, 10));
    a.on_complete();
    a.on_progress(snap(10, 10));
    assert_eq!(progress_of(a.poll(1)), (10, 10));
    assert!(matches!(a.poll(1), UploadPoll::Exhausted));
    a.on_progress(snap(10, 10));
    assert!(matches!(a.poll(1), UploadPoll::Exhausted));
}
