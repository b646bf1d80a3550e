use cattleya::erros::VioletRequestErrors;
use cattleya::protocol::{send_outcome, send_step, SendEvent, SendVerdict};

/// Drives the protocol decisions against a scripted endpoint, counting the
/// attempts that are made.
fn simulate(events: &[SendEvent]) -> (u32, SendVerdict) {
    let mut attempts_made: u8 = 0;
    loop {
        let event = events[attempts_made as usize];
        match send_step(attempts_made, event) {
            SendVerdict::RetryAgain => {
                attempts_made += 1;
            }
            verdict => {
                return ((attempts_made + 1) as u32, verdict);
            }
        }
    }
}

#[test]
fn all_rejected_makes_five_attempts() {
    let events = [SendEvent::Response(500); 8];
    let (attempts, verdict) = simulate(&events);
    assert_eq!(attempts, 5);
    assert_eq!(verdict, SendVerdict::FailStatus(500));
    assert!(matches!(
        send_outcome(verdict),
        Err(VioletRequestErrors::FailedToSendRequest(500))
    ));
}

#[test]
fn delivered_on_third_attempt() {
    let events = [
        SendEvent::Response(503),
        SendEvent::Response(503),
        SendEvent::Response(201),
        SendEvent::Response(201),
    ];
    let (attempts, verdict) = simulate(&events);
    assert_eq!(attempts, 3);
    assert_eq!(verdict, SendVerdict::Delivered);
    assert!(matches!(send_outcome(verdict), Ok(())));
}

#[test]
fn transport_failure_makes_one_attempt() {
    let events = [SendEvent::TransportFailure, SendEvent::Response(201)];
    let (attempts, verdict) = simulate(&events);
    assert_eq!(attempts, 1);
    assert_eq!(verdict, SendVerdict::FailTransport);
    assert!(matches!(send_outcome(verdict), Err(VioletRequestErrors::InvalidUrl)));
}

#[test]
fn delivered_on_first_attempt() {
    let events = [SendEvent::Response(201); 2];
    let (attempts, verdict) = simulate(&events);
    assert_eq!(attempts, 1);
    assert_eq!(verdict, SendVerdict::Delivered);
}

#[test]
fn last_status_is_reported() {
    let events = [
        SendEvent::Response(400),
        SendEvent::Response(500),
        SendEvent::Response(502),
        SendEvent::Response(503),
        SendEvent::Response(418),
    ];
    let (attempts, verdict) = simulate(&events);
    assert_eq!(attempts, 5);
    assert_eq!(verdict, SendVerdict::FailStatus(418));
}

#[test]
fn transport_failure_aborts_even_late() {
    let events = [
        SendEvent::Response(500),
        SendEvent::TransportFailure,
        SendEvent::Response(201),
    ];
    let (attempts, verdict) = simulate(&events);
    assert_eq!(attempts, 2);
    assert_eq!(verdict, SendVerdict::FailTransport);
}
