//! The bounded-retry delivery protocol: one record is posted until the
//! endpoint answers 201, up to five attempts in all; a transport-level
//! failure ends delivery at once.
use vstd::prelude::*;

use crate::erros::VioletRequestErrors;

verus! {

/// How many times one record is posted, at most, before delivery is given up.
pub const ATTEMPT_LIMIT: u8 = 5;

/// What one post of the record came to.
#[derive(Clone, Copy, Debug, PartialEq, Eq, Structural)]
pub enum SendEvent {
    /// A response arrived, with this status code.
    Response(u16),
    /// The transport itself failed: connection, name lookup or timeout.
    TransportFailure,
}

/// The decision after one attempt.
#[derive(Clone, Copy, Debug, PartialEq, Eq, Structural)]
pub enum SendVerdict {
    /// The endpoint answered 201: the record is delivered.
    Delivered,
    /// The endpoint answered something else and budget remains: post again.
    RetryAgain,
    /// The transport failed: delivery is given up at once, whatever budget
    /// remains.
    FailTransport,
    /// The endpoint answered something else on the last attempt; delivery is
    /// given up with that status.
    FailStatus(u16),
}

/// Whether the event is a response with a status other than 201.
pub open spec fn rejected_response(ev: SendEvent) -> bool {
    ev matches SendEvent::Response(st) && st != 201
}

/// The decision of the delivery protocol on the outcome of one more attempt,
/// after `attempts_made` attempts came before it.
pub open spec fn spec_send_step(attempts_made: nat, ev: SendEvent) -> SendVerdict {
    match ev {
        SendEvent::TransportFailure => SendVerdict::FailTransport,
        SendEvent::Response(status) => if status == 201 {
            SendVerdict::Delivered
        } else if attempts_made + 1 < ATTEMPT_LIMIT {
            SendVerdict::RetryAgain
        } else {
            SendVerdict::FailStatus(status)
        },
    }
}

/// Decides what follows one attempt whose outcome was `ev`.
pub fn send_step(attempts_made: u8, ev: SendEvent) -> (v: SendVerdict)
    requires
        attempts_made < ATTEMPT_LIMIT,
    ensures
        v == spec_send_step(attempts_made as nat, ev),
{
    match ev {
        SendEvent::TransportFailure => SendVerdict::FailTransport,
        SendEvent::Response(status) => if status == 201 {
            SendVerdict::Delivered
        } else if attempts_made + 1 < ATTEMPT_LIMIT {
            SendVerdict::RetryAgain
        } else {
            SendVerdict::FailStatus(status)
        },
    }
}

/// The result that a terminal verdict stands for.
pub fn send_outcome(v: SendVerdict) -> (r: Result<(), VioletRequestErrors>)
    requires
        !(v is RetryAgain),
    ensures
        v is Delivered ==> r is Ok,
        v is FailTransport ==> r == Err::<(), VioletRequestErrors>(
            VioletRequestErrors::InvalidUrl,
        ),
        (v matches SendVerdict::FailStatus(st) ==> r == Err::<(), VioletRequestErrors>(
            VioletRequestErrors::FailedToSendRequest(st),
        )),
{
    match v {
        SendVerdict::Delivered => Ok(()),
        SendVerdict::FailTransport => Err(VioletRequestErrors::InvalidUrl),
        SendVerdict::FailStatus(st) => Err(VioletRequestErrors::FailedToSendRequest(st)),
        SendVerdict::RetryAgain => vstd::pervasive::unreached(),
    }
}

/// Runs the protocol against the attempt outcomes in `events`, one event per
/// attempt, with `attempts_made` attempts already made. Returns the total
/// number of attempts and the terminal verdict, or nothing if the events run
/// out before a terminal verdict.
pub open spec fn run_protocol_from(events: Seq<SendEvent>, attempts_made: nat) -> Option<
    (nat, SendVerdict),
>
    decreases events.len(),
{
    if events.len() == 0 {
        None
    } else {
        let v = spec_send_step(attempts_made, events[0]);
        if v is RetryAgain {
            run_protocol_from(events.skip(1), attempts_made + 1)
        } else {
            Some((attempts_made + 1, v))
        }
    }
}

/// Runs the protocol from its first attempt.
pub open spec fn run_protocol(events: Seq<SendEvent>) -> Option<(nat, SendVerdict)> {
    run_protocol_from(events, 0)
}

/// Within its budget the protocol always ends: whatever the endpoint answers,
/// a terminal verdict comes after at most five attempts in all.
pub proof fn lemma_attempt_budget(events: Seq<SendEvent>, attempts_made: nat)
    requires
        attempts_made < ATTEMPT_LIMIT,
    ensures
        run_protocol_from(events, attempts_made) matches Some(r) ==> attempts_made < r.0
            <= ATTEMPT_LIMIT,
    decreases events.len(),
{
    if events.len() > 0 {
        let v = spec_send_step(attempts_made, events[0]);
        if v is RetryAgain {
            lemma_attempt_budget(events.skip(1), attempts_made + 1);
        }
    }
}

/// A 201 answer to the first post delivers the record with exactly one
/// attempt: no second request is ever made for it.
pub proof fn lemma_delivered_first_attempt(events: Seq<SendEvent>)
    requires
        events.len() >= 1,
        events[0] == SendEvent::Response(201),
    ensures
        run_protocol(events) == Some((1 as nat, SendVerdict::Delivered)),
{
}

/// A transport failure on the first post ends delivery at once: exactly one
/// attempt, and no retry budget is consumed.
pub proof fn lemma_transport_failure_one_attempt(events: Seq<SendEvent>)
    requires
        events.len() >= 1,
        events[0] == SendEvent::TransportFailure,
    ensures
        run_protocol(events) == Some((1 as nat, SendVerdict::FailTransport)),
{
}

/// Two rejected answers followed by a 201 deliver the record on exactly the
/// third attempt.
pub proof fn lemma_delivered_on_third(events: Seq<SendEvent>)
    requires
        events.len() >= 3,
        rejected_response(events[0]),
        rejected_response(events[1]),
        events[2] == SendEvent::Response(201),
    ensures
        run_protocol(events) == Some((3 as nat, SendVerdict::Delivered)),
{
    let s1 = events.skip(1);
    let s2 = events.skip(2);
    assert(s1[0] == events[1]);
    assert(s1.skip(1) =~= s2);
    assert(s2[0] == events[2]);
    assert(spec_send_step(0, events[0]) is RetryAgain);
    assert(run_protocol_from(events, 0) == run_protocol_from(s1, 1));
    assert(spec_send_step(1, s1[0]) is RetryAgain);
    assert(run_protocol_from(s1, 1) == run_protocol_from(s2, 2));
    assert(spec_send_step(2, s2[0]) == SendVerdict::Delivered);
    assert(run_protocol_from(s2, 2) == Some((3 as nat, SendVerdict::Delivered)));
}

/// Against an endpoint that answers every post with a status other than 201,
/// delivery makes exactly five attempts and then fails with the status of the
/// last answer.
pub proof fn lemma_rejected_five_attempts(events: Seq<SendEvent>)
    requires
        events.len() >= 5,
        forall|i: int| 0 <= i < 5 ==> rejected_response(#[trigger] events[i]),
    ensures
        run_protocol(events) == Some((5 as nat, SendVerdict::FailStatus(events[4]->Response_0))),
{
    let s1 = events.skip(1);
    let s2 = events.skip(2);
    let s3 = events.skip(3);
    let s4 = events.skip(4);
    assert(rejected_response(events[0]));
    assert(s1[0] == events[1]);
    assert(s1.skip(1) =~= s2);
    assert(s2[0] == events[2]);
    assert(s2.skip(1) =~= s3);
    assert(s3[0] == events[3]);
    assert(s3.skip(1) =~= s4);
    assert(s4[0] == events[4]);
    assert(spec_send_step(0, events[0]) is RetryAgain);
    assert(run_protocol_from(events, 0) == run_protocol_from(s1, 1));
    assert(spec_send_step(1, s1[0]) is RetryAgain);
    assert(run_protocol_from(s1, 1) == run_protocol_from(s2, 2));
    assert(spec_send_step(2, s2[0]) is RetryAgain);
    assert(run_protocol_from(s2, 2) == run_protocol_from(s3, 3));
    assert(spec_send_step(3, s3[0]) is RetryAgain);
    assert(run_protocol_from(s3, 3) == run_protocol_from(s4, 4));
    assert(spec_send_step(4, s4[0]) == SendVerdict::FailStatus(events[4]->Response_0));
    assert(run_protocol_from(s4, 4) == Some(
        (5 as nat, SendVerdict::FailStatus(events[4]->Response_0)),
    ));
}

} // verus!
