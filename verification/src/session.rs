//! The decisions a client takes from what the client library answers: the
//! outcome of a subscription, of a request to unsubscribe and of a
//! publication; whether an ended event loop counts as a failure; and when a
//! wait for the broker's answer to a connection or to a publication ends, and
//! how.

use vstd::prelude::*;
use crate::error::{call_error, connect_error_text, connection_error, Error};
use crate::message::TopicMatcher;
use crate::sys::{MOSQ_CONNECT_ERR_OK, MOSQ_CONNECT_ERR_TIMEOUT, MOSQ_ERR_NO_CONN, MOSQ_ERR_UNKNOWN};

verus! {

/// The outcome of an event loop that runs until the client disconnects: an
/// explicit disconnect, which the loop reports as "not connected", is no error.
pub fn ignore_disconnect(looped: Result<(), Error>) -> (r: Result<(), Error>)
    ensures
        looped is Ok ==> r is Ok,
        looped matches Err(e) ==> (e@.code == MOSQ_ERR_NO_CONN ==> r is Ok),
        looped matches Err(e) ==> (e@.code != MOSQ_ERR_NO_CONN ==> r == looped),
{
    match looped {
        Err(e) => {
            if e.error() == MOSQ_ERR_NO_CONN {
                Ok(())
            } else {
                Err(e)
            }
        },
        Ok(()) => Ok(()),
    }
}

/// The outcome of a subscription to the pattern `sub` that the client library
/// answered with code `rc` and request id `mid`: a matcher for the pattern
/// when the code is zero, else the error of the subscribe call, described by
/// `reason`.
pub fn subscribed(sub: String, mid: i32, rc: i32, reason: &str) -> (r: Result<TopicMatcher, Error>)
    ensures
        r is Ok <==> rc == 0,
        r matches Ok(m) ==> m.pattern() == sub@ && m.request_id() == mid,
        r matches Err(e) ==> e@ == call_error("subscribe"@, rc, reason@),
{
    if rc == 0 {
        Ok(TopicMatcher::new(sub, mid))
    } else {
        Err(Error::new("subscribe", rc, reason))
    }
}

/// The outcome of a request to unsubscribe that the client library answered
/// with code `rc` and request id `mid`: the id when the code is zero, else the
/// error of the unsubscribe call, described by `reason`.
pub fn unsubscribed(mid: i32, rc: i32, reason: &str) -> (r: Result<i32, Error>)
    ensures
        r is Ok <==> rc == 0,
        r matches Ok(id) ==> id == mid,
        r matches Err(e) ==> e@ == call_error("unsubscribe"@, rc, reason@),
{
    if rc == 0 {
        Ok(mid)
    } else {
        Err(Error::new("unsubscribe", rc, reason))
    }
}

/// The outcome of a publication that the client library answered with code
/// `rc` and message id `mid`: the id when the code is zero, else the error of
/// the publish call, described by `reason`.
pub fn published(mid: i32, rc: i32, reason: &str) -> (r: Result<i32, Error>)
    ensures
        r is Ok <==> rc == 0,
        r matches Ok(id) ==> id == mid,
        r matches Err(e) ==> e@ == call_error("publish"@, rc, reason@),
{
    if rc == 0 {
        Ok(mid)
    } else {
        Err(Error::new("publish", rc, reason))
    }
}

/// Whether `elapsed_nanos` nanoseconds are more than `limit_millis` milliseconds.
pub open spec fn past_deadline(elapsed_nanos: u128, limit_millis: u64) -> bool {
    elapsed_nanos > limit_millis * 1_000_000
}

/// Whether `elapsed_nanos` nanoseconds are more than `limit_millis` milliseconds.
pub fn deadline_passed(elapsed_nanos: u128, limit_millis: u64) -> (passed: bool)
    ensures
        passed == past_deadline(elapsed_nanos, limit_millis),
        passed == (elapsed_nanos > limit_millis * 1_000_000),
{
    assert(limit_millis * 1_000_000 <= 0xffff_ffff_ffff_ffff * 1_000_000) by (nonlinear_arith);
    let limit: u128 = (limit_millis as u128) * 1_000_000;
    elapsed_nanos > limit
}

/// The decision taken after a round of network processing.
#[derive(PartialEq, Eq, Structural)]
pub enum WaitDecision {
    /// go on waiting
    KeepWaiting,
    /// the broker gave the answer waited for
    Succeed,
    /// the round of network processing failed
    LoopFailed,
    /// the time allowed has passed
    GiveUp,
}

/// What follows a round of network processing: another round, or the end of
/// the wait with its result.
pub enum WaitStep<T> {
    Continue,
    Done(Result<T, Error>),
}

/// The state of a wait for the broker's answer to a connection: the last
/// connection status reported, and the time allowed in milliseconds.
pub struct ConnectWaitView {
    pub status: i32,
    pub limit_millis: u64,
}

impl ConnectWaitView {
    /// The state once the broker has reported connection status `rc`.
    pub open spec fn reported(self, rc: i32) -> ConnectWaitView {
        ConnectWaitView { status: rc, ..self }
    }

    /// The decision after a round of network processing that succeeded or not,
    /// `elapsed_nanos` nanoseconds after the wait began.
    pub open spec fn decide(self, looped_ok: bool, elapsed_nanos: u128) -> WaitDecision {
        if !looped_ok {
            WaitDecision::LoopFailed
        } else if self.status == MOSQ_CONNECT_ERR_OK {
            WaitDecision::Succeed
        } else if past_deadline(elapsed_nanos, self.limit_millis) {
            WaitDecision::GiveUp
        } else {
            WaitDecision::KeepWaiting
        }
    }
}

/// The state of a connection wait allowed `millis` milliseconds, before the
/// broker has answered: the status is that of a timeout.
pub open spec fn connect_wait_start(millis: i32) -> ConnectWaitView {
    ConnectWaitView { status: MOSQ_CONNECT_ERR_TIMEOUT, limit_millis: millis as u64 }
}

/// A wait for the broker's answer to a connection.
pub struct ConnectWait {
    status: i32,
    limit_millis: u64,
}

impl View for ConnectWait {
    type V = ConnectWaitView;

    closed spec fn view(&self) -> ConnectWaitView {
        ConnectWaitView { status: self.status, limit_millis: self.limit_millis }
    }
}

impl ConnectWait {
    /// A wait allowed `millis` milliseconds; a negative number is extended by
    /// its sign to 64 bits and read as unsigned, so -1 allows 2^64 - 1
    /// milliseconds.
    pub fn new(millis: i32) -> (w: ConnectWait)
        ensures
            w@ == connect_wait_start(millis),
            w@.status == MOSQ_CONNECT_ERR_TIMEOUT,
            w@.limit_millis == millis as u64,
    {
        ConnectWait { status: MOSQ_CONNECT_ERR_TIMEOUT, limit_millis: millis as u64 }
    }

    /// The broker reported connection status `rc`.
    pub fn on_connect(&mut self, rc: i32)
        ensures
            final(self)@ == old(self)@.reported(rc),
            final(self)@.status == rc,
            final(self)@.limit_millis == old(self)@.limit_millis,
    {
        self.status = rc;
    }

    /// The last connection status reported.
    pub fn status(&self) -> (status: i32)
        ensures
            status == self@.status,
    {
        self.status
    }

    /// What follows a round of network processing that gave `looped`,
    /// `elapsed_nanos` nanoseconds after the wait began: the loop's error ends
    /// the wait; a status of success ends it with success; past the time
    /// allowed, the last status ends it as a connection error; else it goes on.
    pub fn after_loop(&self, looped: Result<(), Error>, elapsed_nanos: u128) -> (step: WaitStep<()>)
        ensures
            looped matches Err(e) ==> step == WaitStep::<()>::Done(Err(e)),
            self@.decide(looped is Ok, elapsed_nanos) == WaitDecision::Succeed ==> step
                == WaitStep::<()>::Done(Ok(())),
            self@.decide(looped is Ok, elapsed_nanos) == WaitDecision::GiveUp ==> (step matches WaitStep::Done(
                Err(e),
            ) && e@ == connection_error(self@.status)),
            self@.decide(looped is Ok, elapsed_nanos) == WaitDecision::KeepWaiting ==> step is Continue,
            step matches WaitStep::Done(Ok(_)) ==> looped is Ok && self@.status == MOSQ_CONNECT_ERR_OK,
            looped is Ok && self@.status == MOSQ_CONNECT_ERR_OK ==> step == WaitStep::<()>::Done(Ok(())),
            looped is Ok && self@.status != MOSQ_CONNECT_ERR_OK && elapsed_nanos > self@.limit_millis
                * 1_000_000 ==> (step matches WaitStep::Done(Err(e)) && e@.code == self@.status
                && e@.connect && e@.text == connect_error_text(self@.status)),
            looped is Ok && self@.status != MOSQ_CONNECT_ERR_OK && elapsed_nanos <= self@.limit_millis
                * 1_000_000 ==> step is Continue,
    {
        match looped {
            Err(e) => WaitStep::Done(Err(e)),
            Ok(()) => {
                if self.status == MOSQ_CONNECT_ERR_OK {
                    WaitStep::Done(Ok(()))
                } else if deadline_passed(elapsed_nanos, self.limit_millis) {
                    WaitStep::Done(Err(Error::new_connect(self.status)))
                } else {
                    WaitStep::Continue
                }
            },
        }
    }
}

/// The state of a wait for the broker's confirmation of a publication: the id
/// of the message published, the last id confirmed, and the time allowed in
/// milliseconds.
pub struct PublishWaitView {
    pub our_mid: i32,
    pub seen: i32,
    pub limit_millis: u64,
}

impl PublishWaitView {
    /// The state once the broker has confirmed the message with id `mid`.
    pub open spec fn reported(self, mid: i32) -> PublishWaitView {
        PublishWaitView { seen: mid, ..self }
    }

    /// The decision after a round of network processing that succeeded or not,
    /// `elapsed_nanos` nanoseconds after the wait began.
    pub open spec fn decide(self, looped_ok: bool, elapsed_nanos: u128) -> WaitDecision {
        if !looped_ok {
            WaitDecision::LoopFailed
        } else if self.seen == self.our_mid {
            WaitDecision::Succeed
        } else if past_deadline(elapsed_nanos, self.limit_millis) {
            WaitDecision::GiveUp
        } else {
            WaitDecision::KeepWaiting
        }
    }
}

/// The state of a wait for the confirmation of message `our_mid`, allowed
/// `millis` milliseconds, before any confirmation: the last id seen is zero.
pub open spec fn publish_wait_start(our_mid: i32, millis: i32) -> PublishWaitView {
    PublishWaitView { our_mid, seen: 0, limit_millis: millis as u64 }
}

/// A wait for the broker's confirmation of a publication.
pub struct PublishWait {
    our_mid: i32,
    seen: i32,
    limit_millis: u64,
}

impl View for PublishWait {
    type V = PublishWaitView;

    closed spec fn view(&self) -> PublishWaitView {
        PublishWaitView { our_mid: self.our_mid, seen: self.seen, limit_millis: self.limit_millis }
    }
}

impl PublishWait {
    /// A wait for the confirmation of message `our_mid`, allowed `millis`
    /// milliseconds; a negative number is extended by its sign to 64 bits and
    /// read as unsigned, so -1 allows 2^64 - 1 milliseconds.
    pub fn new(our_mid: i32, millis: i32) -> (w: PublishWait)
        ensures
            w@ == publish_wait_start(our_mid, millis),
            w@.our_mid == our_mid,
            w@.seen == 0,
            w@.limit_millis == millis as u64,
    {
        PublishWait { our_mid, seen: 0, limit_millis: millis as u64 }
    }

    /// The broker confirmed the message with id `mid`.
    pub fn on_publish(&mut self, mid: i32)
        ensures
            final(self)@ == old(self)@.reported(mid),
            final(self)@.seen == mid,
            final(self)@.our_mid == old(self)@.our_mid,
            final(self)@.limit_millis == old(self)@.limit_millis,
    {
        self.seen = mid;
    }

    /// What follows a round of network processing that gave `looped`,
    /// `elapsed_nanos` nanoseconds after the wait began: the loop's error ends
    /// the wait; the confirmation of our message ends it with our message id;
    /// past the time allowed, it ends with the error of the publish call with
    /// code "unknown", described by `unknown_reason`; else it goes on.
    pub fn after_loop(&self, looped: Result<(), Error>, elapsed_nanos: u128, unknown_reason: &str) -> (step:
        WaitStep<i32>)
        ensures
            looped matches Err(e) ==> step == WaitStep::<i32>::Done(Err(e)),
            self@.decide(looped is Ok, elapsed_nanos) == WaitDecision::Succeed ==> step
                == WaitStep::<i32>::Done(Ok(self@.our_mid)),
            self@.decide(looped is Ok, elapsed_nanos) == WaitDecision::GiveUp ==> (step matches WaitStep::Done(
                Err(e),
            ) && e@ == call_error("publish"@, MOSQ_ERR_UNKNOWN, unknown_reason@)),
            self@.decide(looped is Ok, elapsed_nanos) == WaitDecision::KeepWaiting ==> step is Continue,
            step matches WaitStep::Done(Ok(id)) ==> looped is Ok && self@.seen == self@.our_mid && id
                == self@.our_mid,
            looped is Ok && self@.seen == self@.our_mid ==> step == WaitStep::<i32>::Done(Ok(self@.our_mid)),
            looped is Ok && self@.seen != self@.our_mid && elapsed_nanos > self@.limit_millis * 1_000_000
                ==> (step matches WaitStep::Done(Err(e)) && e@.code == MOSQ_ERR_UNKNOWN && !e@.connect
                && e@.text == "publish"@ + ": "@ + unknown_reason@),
            looped is Ok && self@.seen != self@.our_mid && elapsed_nanos <= self@.limit_millis * 1_000_000
                ==> step is Continue,
    {
        match looped {
            Err(e) => WaitStep::Done(Err(e)),
            Ok(()) => {
                if self.seen == self.our_mid {
                    WaitStep::Done(Ok(self.our_mid))
                } else if deadline_passed(elapsed_nanos, self.limit_millis) {
                    WaitStep::Done(Err(Error::new("publish", MOSQ_ERR_UNKNOWN, unknown_reason)))
                } else {
                    WaitStep::Continue
                }
            },
        }
    }
}


/// A connection wait goes on after a round of network processing exactly when
/// that round succeeded, the broker has not reported success, and the time
/// allowed has not passed; a failed round always ends it.
pub proof fn connect_wait_goes_on_exactly_when(w: ConnectWaitView, looped_ok: bool, elapsed_nanos: u128)
    ensures
        (w.decide(looped_ok, elapsed_nanos) == WaitDecision::KeepWaiting) <==> (looped_ok && w.status
            != MOSQ_CONNECT_ERR_OK && !past_deadline(elapsed_nanos, w.limit_millis)),
        !looped_ok ==> w.decide(looped_ok, elapsed_nanos) == WaitDecision::LoopFailed,
{
}

/// Once the broker reports a successful connection, the next round of network
/// processing that succeeds ends the wait with success, whatever the time.
pub proof fn connect_wait_succeeds_after_success_report(w: ConnectWaitView, elapsed_nanos: u128)
    ensures
        w.reported(MOSQ_CONNECT_ERR_OK).decide(true, elapsed_nanos) == WaitDecision::Succeed,
{
}

/// A connection wait succeeds only when the last status the broker reported
/// is success.
pub proof fn connect_wait_success_needs_success_report(w: ConnectWaitView, looped_ok: bool, elapsed_nanos: u128)
    ensures
        w.decide(looped_ok, elapsed_nanos) == WaitDecision::Succeed ==> w.status == MOSQ_CONNECT_ERR_OK,
{
}

/// When the broker never answers, the wait gives up once the time allowed has
/// passed, with the connection error of a timeout.
pub proof fn silent_broker_times_out(millis: i32, elapsed_nanos: u128)
    requires
        past_deadline(elapsed_nanos, millis as u64),
    ensures
        connect_wait_start(millis).decide(true, elapsed_nanos) == WaitDecision::GiveUp,
        connection_error(connect_wait_start(millis).status).code == MOSQ_CONNECT_ERR_TIMEOUT,
        connection_error(connect_wait_start(millis).status).text == "connect: timed out"@,
{
}

/// Only the last status the broker reported counts.
pub proof fn connect_last_report_counts(w: ConnectWaitView, first: i32, second: i32)
    ensures
        w.reported(first).reported(second) == w.reported(second),
{
}

/// A publication wait goes on after a round of network processing exactly when
/// that round succeeded, the last id confirmed is not ours, and the time
/// allowed has not passed; a failed round always ends it.
pub proof fn publish_wait_goes_on_exactly_when(w: PublishWaitView, looped_ok: bool, elapsed_nanos: u128)
    ensures
        (w.decide(looped_ok, elapsed_nanos) == WaitDecision::KeepWaiting) <==> (looped_ok && w.seen
            != w.our_mid && !past_deadline(elapsed_nanos, w.limit_millis)),
        !looped_ok ==> w.decide(looped_ok, elapsed_nanos) == WaitDecision::LoopFailed,
{
}

/// After the broker confirms the message with id `mid`, a round of network
/// processing that succeeds ends the wait with success exactly when `mid` is
/// the id of our message.
pub proof fn publish_wait_succeeds_on_our_confirmation(
    w: PublishWaitView,
    mid: i32,
    elapsed_nanos: u128,
)
    ensures
        (w.reported(mid).decide(true, elapsed_nanos) == WaitDecision::Succeed) <==> mid == w.our_mid,
{
}

/// Before any confirmation, a wait for a message whose id is not zero does not
/// succeed, and past the time allowed it gives up.
pub proof fn publish_wait_needs_confirmation(our_mid: i32, millis: i32, elapsed_nanos: u128)
    requires
        our_mid != 0,
    ensures
        publish_wait_start(our_mid, millis).decide(true, elapsed_nanos) != WaitDecision::Succeed,
        past_deadline(elapsed_nanos, millis as u64) ==> publish_wait_start(our_mid, millis).decide(
            true,
            elapsed_nanos,
        ) == WaitDecision::GiveUp,
{
}

/// Only the last confirmation the broker sent counts.
pub proof fn publish_last_report_counts(w: PublishWaitView, first: i32, second: i32)
    ensures
        w.reported(first).reported(second) == w.reported(second),
{
}

/// The deadline counts in milliseconds: a limit of `l` milliseconds has not
/// passed after exactly `l` milliseconds, has passed one nanosecond later, and
/// stays passed as time goes on.
pub proof fn deadline_counts_milliseconds(limit_millis: u64, elapsed_nanos: u128, later_nanos: u128)
    ensures
        !past_deadline((limit_millis * 1_000_000) as u128, limit_millis),
        past_deadline((limit_millis * 1_000_000 + 1) as u128, limit_millis),
        past_deadline(elapsed_nanos, limit_millis) && elapsed_nanos <= later_nanos ==> past_deadline(
            later_nanos,
            limit_millis,
        ),
{
    assert(limit_millis * 1_000_000 + 1 <= 0xffff_ffff_ffff_ffff * 1_000_000 + 1) by (nonlinear_arith);
}

/// A wait for a connection allowed a non-negative number of milliseconds is
/// allowed exactly that many; a negative number allows more than any
/// non-negative one.
pub proof fn wait_limits_keep_the_time_given(millis: i32, our_mid: i32)
    ensures
        millis >= 0 ==> connect_wait_start(millis).limit_millis == millis,
        millis >= 0 ==> publish_wait_start(our_mid, millis).limit_millis == millis,
        millis < 0 ==> connect_wait_start(millis).limit_millis > 0x7fff_ffff_ffff_ffff,
        millis < 0 ==> publish_wait_start(our_mid, millis).limit_millis > 0x7fff_ffff_ffff_ffff,
        connect_wait_start(millis).status == MOSQ_CONNECT_ERR_TIMEOUT,
        publish_wait_start(our_mid, millis).our_mid == our_mid,
{
    assert(millis >= 0 ==> millis as u64 == millis) by (bit_vector);
    assert(millis < 0 ==> millis as u64 > 0x7fff_ffff_ffff_ffffu64) by (bit_vector);
}

/// Reporting a connection status records exactly that status and keeps the
/// time allowed; the wait then succeeds only when that status is success.
pub proof fn connect_report_records_status(w: ConnectWaitView, rc: i32, looped_ok: bool, elapsed_nanos: u128)
    ensures
        w.reported(rc).status == rc,
        w.reported(rc).limit_millis == w.limit_millis,
        w.reported(rc).decide(looped_ok, elapsed_nanos) == WaitDecision::Succeed ==> rc == MOSQ_CONNECT_ERR_OK,
{
}

/// After a successful round, a connection wait is never taken for a failed
/// round; it succeeds exactly when the last status is success, and without
/// success it gives up once more than the time allowed has passed.
pub proof fn connect_wait_after_good_round(w: ConnectWaitView, elapsed_nanos: u128)
    ensures
        w.decide(true, elapsed_nanos) != WaitDecision::LoopFailed,
        (w.decide(true, elapsed_nanos) == WaitDecision::Succeed) <==> w.status == MOSQ_CONNECT_ERR_OK,
        w.status != MOSQ_CONNECT_ERR_OK && elapsed_nanos > w.limit_millis * 1_000_000 ==> w.decide(
            true,
            elapsed_nanos,
        ) == WaitDecision::GiveUp,
        w.status != MOSQ_CONNECT_ERR_OK && elapsed_nanos <= w.limit_millis * 1_000_000 ==> w.decide(
            true,
            elapsed_nanos,
        ) == WaitDecision::KeepWaiting,
{
}

/// Confirming a message records exactly its id and keeps the id waited for
/// and the time allowed.
pub proof fn publish_report_records_id(w: PublishWaitView, mid: i32)
    ensures
        w.reported(mid).seen == mid,
        w.reported(mid).our_mid == w.our_mid,
        w.reported(mid).limit_millis == w.limit_millis,
{
}

/// After a successful round, a publication wait is never taken for a failed
/// round; it succeeds exactly when the last id confirmed is ours, and while
/// that id is another one it gives up once more than the time allowed has
/// passed.
pub proof fn publish_wait_after_good_round(w: PublishWaitView, elapsed_nanos: u128)
    ensures
        w.decide(true, elapsed_nanos) != WaitDecision::LoopFailed,
        (w.decide(true, elapsed_nanos) == WaitDecision::Succeed) <==> w.seen == w.our_mid,
        w.seen != w.our_mid && elapsed_nanos > w.limit_millis * 1_000_000 ==> w.decide(true, elapsed_nanos)
            == WaitDecision::GiveUp,
        w.seen != w.our_mid && elapsed_nanos <= w.limit_millis * 1_000_000 ==> w.decide(true, elapsed_nanos)
            == WaitDecision::KeepWaiting,
{
}

} // verus!
