use reachability::instance::{CheckPhase, CheckResult, CheckStep, InstanceCheck};
use reachability::policy::RetryPolicy;
use reachability::probe::{
    attestation_endpoint_url, is_attested, socket_address_text, AttestationProbe, ProbeStep,
    TransportProbe,
};
use reachability::protocol::{Action, Event};
use reachability::retry::{Pending, Phase, RetryLoop, Turn};

fn document() -> Event {
    Event::AttestationAnswered { status: 200, document: vec![0xd2, 0x84] }
}

#[test]
fn socket_address_is_host_and_port() {
    assert_eq!(socket_address_text("203.0.113.7", 1300), "203.0.113.7:1300");
    assert_eq!(socket_address_text("host", 0), "host:0");
    assert_eq!(socket_address_text("", 65535), ":65535");
}

#[test]
fn attestation_endpoint_is_plain_http_on_the_port() {
    assert_eq!(
        attestation_endpoint_url("203.0.113.7", 1300),
        "http://203.0.113.7:1300/attestation/raw"
    );
    assert_eq!(attestation_endpoint_url("h", 80), "http://h:80/attestation/raw");
}

#[test]
fn an_answer_counts_only_with_success_status_and_a_body() {
    assert!(is_attested(200, &[1]));
    assert!(is_attested(204, &[1, 2, 3]));
    assert!(is_attested(299, &[0]));
    assert!(!is_attested(200, &[]));
    assert!(!is_attested(199, &[1]));
    assert!(!is_attested(300, &[1]));
    assert!(!is_attested(404, &[1]));
    assert!(!is_attested(500, &[1]));
    assert!(!is_attested(0, &[1]));
    assert!(!is_attested(u16::MAX, &[1]));
}

#[test]
fn retry_loop_walks_through_its_phases() {
    let retry = RetryLoop::new(RetryPolicy { max_attempts: 2, interval_secs: 7 });
    assert_eq!(retry.phase(), Phase::Attempting);
    assert_eq!(retry.pending(), Pending::Attempt);
    assert_eq!(retry.attempts(), 0);
    let retry = retry.attempted(false);
    assert_eq!(retry.phase(), Phase::Waiting);
    assert_eq!(retry.pending(), Pending::Wait { secs: 7 });
    assert_eq!(retry.attempts(), 1);
    let retry = retry.elapsed();
    assert_eq!(retry.phase(), Phase::Attempting);
    let retry = retry.attempted(false);
    assert_eq!(retry.attempts(), 2);
    assert_eq!(retry.phase(), Phase::Waiting);
    assert!(!retry.finished());
    let retry = retry.elapsed();
    assert_eq!(retry.phase(), Phase::Exhausted);
    assert_eq!(retry.pending(), Pending::Done { success: false });
    assert!(retry.finished());
    assert_eq!(retry.policy(), RetryPolicy { max_attempts: 2, interval_secs: 7 });
}

#[test]
fn retry_loop_ends_at_once_on_success() {
    let retry = RetryLoop::new(RetryPolicy { max_attempts: 5, interval_secs: 7 })
        .step(Turn::Attempted { success: false })
        .step(Turn::Elapsed)
        .step(Turn::Attempted { success: true });
    assert_eq!(retry.phase(), Phase::Succeeded);
    assert_eq!(retry.pending(), Pending::Done { success: true });
    assert_eq!(retry.attempts(), 2);
}

#[test]
fn retry_loop_ignores_what_it_did_not_ask_for() {
    let fresh = RetryLoop::new(RetryPolicy { max_attempts: 5, interval_secs: 7 });
    let same = fresh.elapsed().step(Turn::Unrelated);
    assert_eq!(same.phase(), Phase::Attempting);
    assert_eq!(same.attempts(), 0);
    let waiting = fresh.attempted(false);
    let same = waiting.attempted(true).attempted(false);
    assert_eq!(same.phase(), Phase::Waiting);
    assert_eq!(same.attempts(), 1);
    let done = fresh.attempted(true);
    let same = done.attempted(false).elapsed();
    assert_eq!(same.phase(), Phase::Succeeded);
    assert_eq!(same.attempts(), 1);
}

#[test]
fn retry_loop_with_the_largest_ceiling_does_not_overflow() {
    let mut retry = RetryLoop::new(RetryPolicy { max_attempts: u32::MAX, interval_secs: u64::MAX });
    for _ in 0..1000 {
        retry = retry.attempted(false).elapsed();
    }
    assert_eq!(retry.attempts(), 1000);
    assert_eq!(retry.phase(), Phase::Attempting);
}

#[test]
fn retry_loop_without_attempts_is_exhausted_from_the_start() {
    let retry = RetryLoop::new(RetryPolicy { max_attempts: 0, interval_secs: 7 });
    assert_eq!(retry.phase(), Phase::Exhausted);
    assert_eq!(retry.attempts(), 0);
    assert!(retry.finished());
}

#[test]
fn transport_probe_asks_for_a_connection_with_the_timeout() {
    let probe = TransportProbe::new("203.0.113.7", 1300, 2, RetryPolicy::transport());
    assert_eq!(
        probe.pending(),
        ProbeStep::Perform(Action::Connect { address: "203.0.113.7:1300".to_string(), timeout_secs: 2 })
    );
}

#[test]
fn transport_probe_succeeds_on_attempt_k_for_every_k_up_to_the_ceiling() {
    for k in 1..=10u32 {
        let mut probe = TransportProbe::new("203.0.113.7", 1300, 2, RetryPolicy::transport());
        let mut connects = 0u32;
        let mut slept = 0u64;
        let reachable = loop {
            match probe.pending() {
                ProbeStep::Perform(Action::Connect { address, timeout_secs }) => {
                    assert_eq!(address, "203.0.113.7:1300");
                    assert_eq!(timeout_secs, 2);
                    connects += 1;
                    let event = if connects < k {
                        if connects % 2 == 0 { Event::ConnectTimedOut } else { Event::ConnectFailed }
                    } else {
                        Event::Connected
                    };
                    probe = probe.advance(event);
                }
                ProbeStep::Perform(Action::Sleep { secs }) => {
                    slept += secs;
                    probe = probe.advance(Event::Elapsed);
                }
                ProbeStep::Perform(other) => panic!("unexpected action {:?}", other),
                ProbeStep::Finished { reachable } => break reachable,
            }
        };
        assert!(reachable);
        assert_eq!(connects, k);
        assert_eq!(probe.attempts(), k);
        assert_eq!(slept, 15 * (k as u64 - 1));
    }
}

#[test]
fn transport_probe_gives_up_after_exactly_the_ceiling() {
    let mut probe = TransportProbe::new("203.0.113.7", 1300, 2, RetryPolicy::transport());
    let mut connects = 0u32;
    let mut sleeps: Vec<u64> = Vec::new();
    let reachable = loop {
        match probe.pending() {
            ProbeStep::Perform(Action::Connect { .. }) => {
                assert_eq!(sleeps.len() as u32, connects);
                connects += 1;
                probe = probe.advance(Event::ConnectFailed);
            }
            ProbeStep::Perform(Action::Sleep { secs }) => {
                sleeps.push(secs);
                assert_eq!(sleeps.len() as u32, connects);
                probe = probe.advance(Event::Elapsed);
            }
            ProbeStep::Perform(other) => panic!("unexpected action {:?}", other),
            ProbeStep::Finished { reachable } => break reachable,
        }
    };
    assert!(!reachable);
    assert_eq!(connects, 10);
    assert_eq!(sleeps, vec![15u64; 10]);
    assert_eq!(probe.attempts(), 10);
    assert!(probe.finished());
}

#[test]
fn transport_probe_ignores_what_it_did_not_ask_for() {
    let probe = TransportProbe::new("h", 1, 2, RetryPolicy::transport())
        .advance(Event::Elapsed)
        .advance(Event::PollFailed)
        .advance(Event::PollAnswered { body: "{\"ip\": \"1.1.1.1\"}".to_string() })
        .advance(document())
        .advance(Event::AttestationFailed);
    assert_eq!(probe.attempts(), 0);
    assert!(matches!(probe.pending(), ProbeStep::Perform(Action::Connect { .. })));
    let waiting = probe.advance(Event::ConnectTimedOut).advance(Event::Connected);
    assert_eq!(waiting.attempts(), 1);
    assert_eq!(waiting.pending(), ProbeStep::Perform(Action::Sleep { secs: 15 }));
}

#[test]
fn attestation_probe_asks_for_the_document() {
    let probe = AttestationProbe::new("203.0.113.7", 1300, RetryPolicy::attestation());
    assert_eq!(
        probe.pending(),
        ProbeStep::Perform(Action::FetchAttestation {
            url: "http://203.0.113.7:1300/attestation/raw".to_string()
        })
    );
}

#[test]
fn attestation_with_an_empty_body_is_a_failed_attempt() {
    let probe = AttestationProbe::new("h", 1300, RetryPolicy::attestation())
        .advance(Event::AttestationAnswered { status: 200, document: Vec::new() });
    assert_eq!(probe.attempts(), 1);
    assert!(!probe.finished());
    assert_eq!(probe.pending(), ProbeStep::Perform(Action::Sleep { secs: 15 }));
}

#[test]
fn attestation_with_a_body_succeeds_at_once() {
    let probe = AttestationProbe::new("h", 1300, RetryPolicy::attestation()).advance(document());
    assert_eq!(probe.attempts(), 1);
    assert!(probe.finished());
    assert_eq!(probe.pending(), ProbeStep::Finished { reachable: true });
}

#[test]
fn attestation_with_a_status_of_failure_is_a_failed_attempt() {
    for status in [100u16, 199, 300, 301, 404, 500, 503] {
        let probe = AttestationProbe::new("h", 1300, RetryPolicy::attestation())
            .advance(Event::AttestationAnswered { status, document: vec![1, 2, 3] });
        assert_eq!(probe.attempts(), 1);
        assert_eq!(probe.pending(), ProbeStep::Perform(Action::Sleep { secs: 15 }));
    }
}

#[test]
fn attestation_probe_gives_up_after_exactly_the_ceiling() {
    let mut probe = AttestationProbe::new("h", 1300, RetryPolicy::attestation());
    let mut fetches = 0u32;
    let mut slept = 0u64;
    let reachable = loop {
        match probe.pending() {
            ProbeStep::Perform(Action::FetchAttestation { .. }) => {
                fetches += 1;
                let event = match fetches % 3 {
                    0 => Event::AttestationFailed,
                    1 => Event::AttestationAnswered { status: 200, document: Vec::new() },
                    _ => Event::AttestationAnswered { status: 503, document: vec![1] },
                };
                probe = probe.advance(event);
            }
            ProbeStep::Perform(Action::Sleep { secs }) => {
                slept += secs;
                probe = probe.advance(Event::Elapsed);
            }
            ProbeStep::Perform(other) => panic!("unexpected action {:?}", other),
            ProbeStep::Finished { reachable } => break reachable,
        }
    };
    assert!(!reachable);
    assert_eq!(fetches, 20);
    assert_eq!(slept, 300);
}

#[test]
fn attestation_probe_succeeds_on_a_later_fetch() {
    let probe = AttestationProbe::new("h", 1300, RetryPolicy::attestation())
        .advance(Event::AttestationFailed)
        .advance(Event::Elapsed)
        .advance(Event::AttestationAnswered { status: 200, document: Vec::new() })
        .advance(Event::Elapsed)
        .advance(document());
    assert_eq!(probe.attempts(), 3);
    assert_eq!(probe.pending(), ProbeStep::Finished { reachable: true });
}

#[test]
fn check_starts_with_the_transport() {
    let check = InstanceCheck::new("203.0.113.7".to_string(), 1300, 2, RetryPolicy::transport(), RetryPolicy::attestation());
    assert_eq!(check.phase(), CheckPhase::Transport);
    assert_eq!(check.result(), None);
    assert_eq!(
        check.pending(),
        CheckStep::Perform(Action::Connect { address: "203.0.113.7:1300".to_string(), timeout_secs: 2 })
    );
}

#[test]
fn check_fetches_the_document_only_after_a_connection() {
    let check = InstanceCheck::new("203.0.113.7".to_string(), 1300, 2, RetryPolicy::transport(), RetryPolicy::attestation());
    let early = check.advance(document());
    assert_eq!(early.phase(), CheckPhase::Transport);
    let connected = early.advance(Event::Connected);
    assert_eq!(connected.phase(), CheckPhase::Attestation);
    assert_eq!(
        connected.pending(),
        CheckStep::Perform(Action::FetchAttestation {
            url: "http://203.0.113.7:1300/attestation/raw".to_string()
        })
    );
    let done = connected.advance(document());
    assert_eq!(done.phase(), CheckPhase::Done);
    assert_eq!(done.result(), Some(CheckResult::Reachable));
    assert_eq!(done.pending(), CheckStep::Finished(CheckResult::Reachable));
}

#[test]
fn check_without_a_connection_never_asks_for_the_document() {
    let mut check = InstanceCheck::new("h".to_string(), 1300, 2, RetryPolicy::transport(), RetryPolicy::attestation());
    let mut actions = 0;
    let result = loop {
        match check.pending() {
            CheckStep::Perform(Action::Connect { .. }) => {
                actions += 1;
                check = check.advance(Event::ConnectTimedOut);
            }
            CheckStep::Perform(Action::Sleep { .. }) => {
                actions += 1;
                check = check.advance(Event::Elapsed);
            }
            CheckStep::Perform(other) => panic!("unexpected action {:?}", other),
            CheckStep::Finished(result) => break result,
        }
    };
    assert_eq!(result, CheckResult::TransportUnreachable);
    assert_eq!(actions, 20);
}

#[test]
fn check_without_a_document_ends_unattested() {
    let mut check = InstanceCheck::new("h".to_string(), 1300, 2, RetryPolicy::transport(), RetryPolicy::attestation())
        .advance(Event::ConnectFailed)
        .advance(Event::Elapsed)
        .advance(Event::Connected);
    let mut fetches = 0;
    let result = loop {
        match check.pending() {
            CheckStep::Perform(Action::FetchAttestation { .. }) => {
                fetches += 1;
                check = check.advance(Event::AttestationFailed);
            }
            CheckStep::Perform(Action::Sleep { secs }) => {
                assert_eq!(secs, 15);
                check = check.advance(Event::Elapsed);
            }
            CheckStep::Perform(other) => panic!("unexpected action {:?}", other),
            CheckStep::Finished(result) => break result,
        }
    };
    assert_eq!(result, CheckResult::AttestationUnreachable);
    assert_eq!(fetches, 20);
    let later = check.advance(Event::Connected).advance(document());
    assert_eq!(later.result(), Some(CheckResult::AttestationUnreachable));
}

#[test]
fn check_with_no_attempts_allowed() {
    let none = RetryPolicy { max_attempts: 0, interval_secs: 1 };
    let check = InstanceCheck::new("h".to_string(), 1300, 2, none, RetryPolicy::attestation());
    assert_eq!(check.result(), Some(CheckResult::TransportUnreachable));
    let check = InstanceCheck::new("h".to_string(), 1300, 2, RetryPolicy::transport(), none)
        .advance(Event::Connected);
    assert_eq!(check.result(), Some(CheckResult::AttestationUnreachable));
}
