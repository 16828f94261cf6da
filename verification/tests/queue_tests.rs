use ecmui::errors::DispatchError;
use ecmui::queue::{drain_in_order, Gateway};

#[test]
fn submit_without_queue_fails_not_connected() {
    let mut g: Gateway<u64> = Gateway::new();
    let r = g.submit(7);
    assert_eq!(r, Err(DispatchError::NotConnected));
}

#[test]
fn admission_rejected_leaves_first_command_intact() {
    let mut g: Gateway<u64> = Gateway::new();
    g.install();
    assert_eq!(g.submit(1), Ok(()));
    // capacity one: a second submission is rejected, not queued
    assert_eq!(g.submit(2), Err(DispatchError::AdmissionRejected));
    assert_eq!(g.submit(3), Err(DispatchError::AdmissionRejected));
    // the first command is still the one the router receives
    assert_eq!(g.take_next(), Some(1));
    assert_eq!(g.take_next(), None);
}

#[test]
fn admission_reopens_after_router_consumes() {
    let mut g: Gateway<&'static str> = Gateway::new();
    g.install();
    assert_eq!(g.submit("a"), Ok(()));
    assert_eq!(g.take_next(), Some("a"));
    assert_eq!(g.submit("b"), Ok(()));
    assert_eq!(g.take_next(), Some("b"));
}

#[test]
fn uninstall_drops_pending_and_rejects_later_submissions() {
    let mut g: Gateway<u64> = Gateway::new();
    g.install();
    assert_eq!(g.submit(9), Ok(()));
    let dropped = g.uninstall();
    assert_eq!(dropped, Some(9));
    assert_eq!(g.submit(10), Err(DispatchError::NotConnected));
}

#[test]
fn serial_commands_are_received_in_submission_order() {
    let mut g: Gateway<u64> = Gateway::new();
    g.install();
    let received = drain_in_order(&mut g, vec![10, 20, 30, 40]);
    assert_eq!(received, vec![10, 20, 30, 40]);
}

#[test]
fn serial_order_holds_for_empty_and_single_sequences() {
    let mut g: Gateway<u64> = Gateway::new();
    g.install();
    let received = drain_in_order(&mut g, vec![]);
    assert_eq!(received, Vec::<u64>::new());
    let received = drain_in_order(&mut g, vec![5]);
    assert_eq!(received, vec![5]);
}
