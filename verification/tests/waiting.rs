use mosquitto_client::session::deadline_passed;
use mosquitto_client::sys::{MOSQ_CONNECT_ERR_BADID, MOSQ_CONNECT_ERR_OK, MOSQ_ERR_UNKNOWN};
use mosquitto_client::{ConnectWait, Error, PublishWait, WaitStep};

#[test]
fn deadline_compares_nanoseconds_with_milliseconds() {
    assert!(!deadline_passed(300_000_000, 300));
    assert!(deadline_passed(300_000_001, 300));
    assert!(!deadline_passed(0, 0));
    assert!(deadline_passed(1, 0));
    assert!(!deadline_passed(u64::MAX as u128 * 1_000_000, u64::MAX));
}

#[test]
fn negative_wait_allows_a_very_long_time() {
    let w = ConnectWait::new(-1);
    assert!(matches!(w.after_loop(Ok(()), 10_000_000_000_000), WaitStep::Continue));
}

#[test]
fn connect_wait_goes_on_before_any_answer() {
    let w = ConnectWait::new(300);
    assert!(matches!(w.after_loop(Ok(()), 1_000), WaitStep::Continue));
    assert_eq!(w.status(), 256);
}

#[test]
fn connect_wait_succeeds_on_report() {
    let mut w = ConnectWait::new(300);
    w.on_connect(MOSQ_CONNECT_ERR_OK);
    assert!(matches!(w.after_loop(Ok(()), 900_000_000), WaitStep::Done(Ok(()))));
}

#[test]
fn connect_wait_times_out() {
    let w = ConnectWait::new(300);
    match w.after_loop(Ok(()), 300_000_001) {
        WaitStep::Done(Err(e)) => {
            assert_eq!(e.description(), "connect: timed out");
            assert_eq!(e.error(), 256);
            assert!(e.is_connect());
        }
        _ => panic!("the wait must end"),
    }
}

#[test]
fn connect_wait_reports_refusal_after_deadline() {
    let mut w = ConnectWait::new(10);
    w.on_connect(MOSQ_CONNECT_ERR_BADID);
    assert!(matches!(w.after_loop(Ok(()), 5_000_000), WaitStep::Continue));
    match w.after_loop(Ok(()), 20_000_000) {
        WaitStep::Done(Err(e)) => assert_eq!(e.description(), "connect: id rejected"),
        _ => panic!("the wait must end"),
    }
}

#[test]
fn connect_wait_passes_loop_errors_on() {
    let mut w = ConnectWait::new(300);
    w.on_connect(MOSQ_CONNECT_ERR_OK);
    let e = Error::new("do_loop", 7, "The connection was lost.");
    match w.after_loop(Err(e), 0) {
        WaitStep::Done(Err(e)) => assert_eq!(e.description(), "do_loop: The connection was lost."),
        _ => panic!("a loop error ends the wait"),
    }
}

#[test]
fn publish_wait_succeeds_on_our_mid() {
    let mut w = PublishWait::new(5, 300);
    assert!(matches!(w.after_loop(Ok(()), 10, "Unknown error."), WaitStep::Continue));
    w.on_publish(4);
    assert!(matches!(w.after_loop(Ok(()), 10, "Unknown error."), WaitStep::Continue));
    w.on_publish(5);
    assert!(matches!(w.after_loop(Ok(()), 10, "Unknown error."), WaitStep::Done(Ok(5))));
}

#[test]
fn publish_wait_times_out_with_unknown_error() {
    let w = PublishWait::new(5, 1);
    match w.after_loop(Ok(()), 1_000_001, "Unknown error.") {
        WaitStep::Done(Err(e)) => {
            assert_eq!(e.description(), "publish: Unknown error.");
            assert_eq!(e.error(), MOSQ_ERR_UNKNOWN);
            assert!(!e.is_connect());
        }
        _ => panic!("the wait must end"),
    }
}

#[test]
fn publish_wait_for_message_zero_needs_no_confirmation() {
    let w = PublishWait::new(0, 300);
    assert!(matches!(w.after_loop(Ok(()), 0, "Unknown error."), WaitStep::Done(Ok(0))));
}

#[test]
fn publish_wait_passes_loop_errors_on() {
    let w = PublishWait::new(3, 300);
    let e = Error::new("do_loop", 4, "The client is not currently connected.");
    match w.after_loop(Err(e), 0, "Unknown error.") {
        WaitStep::Done(Err(e)) => assert_eq!(e.error(), 4),
        _ => panic!("a loop error ends the wait"),
    }
}
