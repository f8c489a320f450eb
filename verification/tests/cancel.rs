use tofupilot_run::cancel::{CancelSignal, CancelToken};
use tofupilot_run::time::Instant;

#[test]
fn graceful_then_force_escalates() {
    let mut tx = CancelToken::new();
    tx.cancel();
    assert_eq!(tx.receiver(false).wait_any(), Some(CancelSignal::Graceful));
    // A wait for a force kill goes on at a graceful stop.
    assert_eq!(tx.receiver(false).wait_force(), None);

    tx.kill();
    assert_eq!(tx.receiver(false).wait_force(), Some(CancelSignal::Force));
}

#[test]
fn interrupt_sits_between_graceful_and_force() {
    let mut tx = CancelToken::new();
    tx.cancel();
    assert_eq!(tx.receiver(false).wait_any(), Some(CancelSignal::Graceful));
    assert_eq!(tx.receiver(false).wait_interrupt(), None);

    tx.interrupt();
    assert_eq!(tx.receiver(false).wait_interrupt(), Some(CancelSignal::Interrupt));
    assert_eq!(tx.receiver(false).wait_force(), None);

    // An interrupt never weakens a force kill.
    tx.kill();
    tx.interrupt();
    assert_eq!(tx.receiver(false).wait_force(), Some(CancelSignal::Force));
}

#[test]
fn first_deadline_wins_and_teardown_mark_wakes_the_ladder() {
    let mut tx = CancelToken::new();
    assert_eq!(tx.receiver(false).deadline(), None);
    let first = Instant { secs: 5, nanos: 0 };
    tx.interrupt_by(Some(first));
    tx.interrupt_by(Some(Instant { secs: 65, nanos: 0 }));
    assert_eq!(tx.receiver(false).deadline(), Some(first));

    assert!(!tx.teardown_started());
    tx.mark_teardown_started();
    assert!(tx.teardown_started());
}

#[test]
fn kill_alone_resolves_both_arms() {
    let mut tx = CancelToken::new();
    tx.kill();
    assert_eq!(tx.receiver(false).wait_any(), Some(CancelSignal::Force));
    assert_eq!(tx.receiver(false).wait_force(), Some(CancelSignal::Force));
}

#[test]
fn drop_sender_treats_as_force() {
    let tx = CancelToken::new();
    assert_eq!(tx.receiver(true).wait_any(), Some(CancelSignal::Force));
}

#[test]
fn graceful_after_force_is_noop() {
    let mut tx = CancelToken::new();
    tx.kill();
    assert_eq!(tx.receiver(false).wait_any(), Some(CancelSignal::Force));
    assert_eq!(tx.receiver(false).wait_force(), Some(CancelSignal::Force));
    assert!(!tx.cancel());
    assert_eq!(tx.receiver(false).wait_any(), Some(CancelSignal::Force));
}

#[test]
fn nothing_resolves_before_a_signal() {
    let tx = CancelToken::new();
    assert_eq!(tx.receiver(false).wait_any(), None);
    assert_eq!(tx.receiver(false).wait_interrupt(), None);
    assert_eq!(tx.receiver(false).wait_force(), None);
}
