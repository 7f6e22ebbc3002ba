use mosquitto_client::sys::{
    MOSQ_CONNECT_ERR_BADID, MOSQ_CONNECT_ERR_NOBROKER, MOSQ_CONNECT_ERR_OK,
    MOSQ_CONNECT_ERR_PROTOCOL, MOSQ_CONNECT_ERR_TIMEOUT, MOSQ_ERR_NOMEM, MOSQ_ERR_NO_CONN,
};
use mosquitto_client::{connect_error, ignore_disconnect, published, subscribed, unsubscribed, Error};

#[test]
fn connect_error_describes_each_code() {
    assert_eq!(connect_error(MOSQ_CONNECT_ERR_OK), "connect: ok");
    assert_eq!(connect_error(MOSQ_CONNECT_ERR_PROTOCOL), "connect: bad protocol version");
    assert_eq!(connect_error(MOSQ_CONNECT_ERR_BADID), "connect: id rejected");
    assert_eq!(connect_error(MOSQ_CONNECT_ERR_NOBROKER), "connect: broker unavailable");
    assert_eq!(connect_error(MOSQ_CONNECT_ERR_TIMEOUT), "connect: timed out");
}

#[test]
fn connect_error_of_other_codes_is_unknown() {
    assert_eq!(connect_error(4), "connect: unknown");
    assert_eq!(connect_error(-1), "connect: unknown");
    assert_eq!(connect_error(255), "connect: unknown");
}

#[test]
fn call_error_joins_call_and_reason() {
    let e = Error::new("subscribe", MOSQ_ERR_NOMEM, "Out of memory.");
    assert_eq!(e.description(), "subscribe: Out of memory.");
    assert_eq!(e.to_string(), "subscribe: Out of memory.");
    assert_eq!(e.error(), MOSQ_ERR_NOMEM);
    assert!(!e.is_connect());
}

#[test]
fn connection_error_uses_connect_text() {
    let e = Error::new_connect(MOSQ_CONNECT_ERR_NOBROKER);
    assert_eq!(e.description(), "connect: broker unavailable");
    assert_eq!(e.error(), MOSQ_CONNECT_ERR_NOBROKER);
    assert!(e.is_connect());
    let t = Error::new_connect(MOSQ_CONNECT_ERR_TIMEOUT);
    assert_eq!(t.to_string(), "connect: timed out");
    assert_eq!(t.error(), 256);
}

#[test]
fn result_succeeds_only_on_zero() {
    assert!(Error::result("connect", 0, "No error.").is_ok());
    match Error::result("disconnect", MOSQ_ERR_NO_CONN, "The client is not currently connected.") {
        Err(e) => {
            assert_eq!(e.error(), 4);
            assert_eq!(e.description(), "disconnect: The client is not currently connected.");
        }
        Ok(()) => panic!("a nonzero code must fail"),
    }
    assert!(Error::result("do_loop", -1, "Connection pending.").is_err());
}

#[test]
fn explicit_disconnect_is_no_error() {
    assert!(ignore_disconnect(Ok(())).is_ok());
    let lost = Error::new("loop_forever", MOSQ_ERR_NO_CONN, "The client is not currently connected.");
    assert!(ignore_disconnect(Err(lost)).is_ok());
}

#[test]
fn other_loop_errors_are_kept() {
    let lost = Error::new("loop_forever", 7, "The connection was lost.");
    match ignore_disconnect(Err(lost)) {
        Err(e) => {
            assert_eq!(e.error(), 7);
            assert_eq!(e.description(), "loop_forever: The connection was lost.");
        }
        Ok(()) => panic!("a lost connection is an error"),
    }
}

#[test]
fn subscription_outcome() {
    let m = subscribed("bilbo/#".to_string(), 9, 0, "No error.").ok().unwrap();
    assert_eq!(m.subscription(), "bilbo/#");
    assert_eq!(m.mid, 9);
    match subscribed("bilbo/#".to_string(), 9, 3, "Invalid function arguments provided.") {
        Err(e) => {
            assert_eq!(e.description(), "subscribe: Invalid function arguments provided.");
            assert_eq!(e.error(), 3);
        }
        Ok(_) => panic!("a nonzero code must fail"),
    }
}

#[test]
fn unsubscribe_and_publish_outcomes() {
    assert_eq!(unsubscribed(11, 0, "No error.").ok(), Some(11));
    assert_eq!(published(12, 0, "No error.").ok(), Some(12));
    match unsubscribed(11, 4, "The client is not currently connected.") {
        Err(e) => assert_eq!(e.description(), "unsubscribe: The client is not currently connected."),
        Ok(_) => panic!("a nonzero code must fail"),
    }
    match published(12, 9, "Payload too large.") {
        Err(e) => {
            assert_eq!(e.description(), "publish: Payload too large.");
            assert_eq!(e.error(), 9);
        }
        Ok(_) => panic!("a nonzero code must fail"),
    }
}
