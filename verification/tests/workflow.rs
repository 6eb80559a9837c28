use reachability::models::NewReachabilityError;
use reachability::orchestrator::{on_job_opened, Intake};
use reachability::policy::{RetryPolicy, VerifierConfig};
use reachability::protocol::{Action, Event};
use reachability::types::{JobDescriptor, JobOpened, Metadata};
use reachability::workflow::{ReachabilityOutcome, ReachabilityVerifier, StageKind, VerifierStep};

fn announcement() -> JobOpened {
    JobOpened {
        job: vec![0xab, 0xc1, 0x23],
        owner: "0x00000000000000000000000000000000000000aa".to_string(),
        provider: "0x00000000000000000000000000000000000000bb".to_string(),
        metadata: "{\"region\":\"us-east\"}".to_string(),
    }
}

fn us_east() -> Metadata {
    Metadata { region: Some("us-east".to_string()), ..Metadata::empty() }
}

fn launch() -> ReachabilityVerifier {
    match on_job_opened(announcement(), "http://cp.example".to_string(), Some(us_east()), VerifierConfig::standard()) {
        Intake::Launched(run) => run,
        Intake::Abandoned { .. } => panic!("abandoned"),
    }
}

/// Drives a run to its end. `respond` says what comes of each action that is
/// not a sleep. Returns every action that was asked for.
fn drive(mut run: ReachabilityVerifier, respond: &mut dyn FnMut(&Action) -> Event) -> (ReachabilityVerifier, Vec<Action>) {
    let mut asked: Vec<Action> = Vec::new();
    loop {
        match run.pending() {
            VerifierStep::Perform(action) => {
                let event = match &action {
                    Action::Sleep { .. } => Event::Elapsed,
                    other => respond(other),
                };
                asked.push(action);
                run = run.advance(event);
                assert!(asked.len() < 1000);
            }
            VerifierStep::Concluded(_) => return (run, asked),
        }
    }
}

fn slept(asked: &[Action]) -> u64 {
    asked.iter().map(|a| match a { Action::Sleep { secs } => *secs, _ => 0 }).sum()
}

#[test]
fn standard_configuration() {
    let config = VerifierConfig::standard();
    assert_eq!(config.startup_delay_secs, 180);
    assert_eq!(config.port, 1300);
    assert_eq!(config.connect_timeout_secs, 2);
    assert_eq!(config.resolution, RetryPolicy { max_attempts: 20, interval_secs: 15 });
    assert_eq!(config.transport, RetryPolicy { max_attempts: 10, interval_secs: 15 });
    assert_eq!(config.attestation, RetryPolicy { max_attempts: 20, interval_secs: 15 });
    assert_eq!(RetryPolicy::address_resolution(), config.resolution);
    assert_eq!(RetryPolicy::transport(), config.transport);
    assert_eq!(RetryPolicy::attestation(), config.attestation);
}

#[test]
fn a_job_is_described_from_its_announcement() {
    let job = JobDescriptor::of(announcement(), "http://cp.example".to_string(), us_east());
    assert_eq!(job.job_id, "0xabc123");
    assert_eq!(job.owner, "0x00000000000000000000000000000000000000aa");
    assert_eq!(job.operator, "0x00000000000000000000000000000000000000bb");
    assert_eq!(job.control_plane_url, "http://cp.example");
    assert_eq!(job.metadata, us_east());
}

#[test]
fn region_defaults_to_empty() {
    assert_eq!(Metadata::empty().region_or_empty(), "");
    assert_eq!(Metadata::default(), Metadata::empty());
    assert_eq!(us_east().region_or_empty(), "us-east");
    let blank = Metadata { region: Some(String::new()), ..Metadata::empty() };
    assert_eq!(blank.region_or_empty(), "");
}

#[test]
fn undecoded_metadata_abandons_the_job() {
    let event = JobOpened { metadata: "{not json".to_string(), ..announcement() };
    let intake = on_job_opened(event, "http://cp.example".to_string(), None, VerifierConfig::standard());
    match intake {
        Intake::Abandoned { job_id, metadata } => {
            assert_eq!(job_id, "0xabc123");
            assert_eq!(metadata, "{not json");
        }
        Intake::Launched(run) => panic!("launched {:?}", run),
    }
}

#[test]
fn decoded_metadata_launches_a_run_that_starts_by_waiting() {
    let run = launch();
    assert_eq!(run.stage(), StageKind::Delaying);
    assert_eq!(run.outcome(), None);
    assert_eq!(run.address(), "");
    assert_eq!(run.job().job_id, "0xabc123");
    assert_eq!(run.config(), VerifierConfig::standard());
    assert_eq!(run.pending(), VerifierStep::Perform(Action::Sleep { secs: 180 }));
    assert_eq!(run.failure_record(1), None);
}

#[test]
fn metadata_beyond_the_region_does_not_matter() {
    let full = Metadata {
        debug: Some(true),
        family: Some("salmon".to_string()),
        init_params: Some("x".to_string()),
        instance: Some("c6a.xlarge".to_string()),
        memory: Some(4096),
        name: Some("n".to_string()),
        region: Some("us-east".to_string()),
        url: Some("https://example/image.eif".to_string()),
        vcpu: Some(2),
    };
    let run = match on_job_opened(announcement(), "http://cp.example".to_string(), Some(full), VerifierConfig::standard()) {
        Intake::Launched(run) => run,
        Intake::Abandoned { .. } => panic!("abandoned"),
    };
    let run = run.advance(Event::Elapsed);
    assert_eq!(
        run.pending(),
        launch().advance(Event::Elapsed).pending()
    );
}

#[test]
fn end_to_end_success() {
    let (run, asked) = drive(launch(), &mut |action| match action {
        Action::PollControlPlane { .. } => Event::PollAnswered { body: "{\"ip\":\"203.0.113.7\"}".to_string() },
        Action::Connect { .. } => Event::Connected,
        Action::FetchAttestation { .. } => Event::AttestationAnswered { status: 200, document: vec![1, 2, 3] },
        Action::Sleep { .. } => Event::Elapsed,
    });
    assert_eq!(
        asked,
        vec![
            Action::Sleep { secs: 180 },
            Action::PollControlPlane { url: "http://cp.example/ip?id=0xabc123&region=us-east".to_string() },
            Action::Connect { address: "203.0.113.7:1300".to_string(), timeout_secs: 2 },
            Action::FetchAttestation { url: "http://203.0.113.7:1300/attestation/raw".to_string() },
        ]
    );
    assert_eq!(run.outcome(), Some(ReachabilityOutcome::Success));
    assert_eq!(run.pending(), VerifierStep::Concluded(ReachabilityOutcome::Success));
    assert_eq!(run.stage(), StageKind::Concluded);
    assert_eq!(run.address(), "203.0.113.7");
    assert_eq!(run.failure_record(1_700_000_000), None);
}

#[test]
fn end_to_end_without_an_address() {
    let (run, asked) = drive(launch(), &mut |action| match action {
        Action::PollControlPlane { .. } => Event::PollAnswered { body: "{\"ip\":\"\"}".to_string() },
        other => panic!("unexpected action {:?}", other),
    });
    assert_eq!(asked.len(), 41);
    assert_eq!(slept(&asked), 180 + 20 * 15);
    let reason = "IP address not found after 20 attempts. Last response: {\"ip\":\"\"}";
    assert_eq!(
        run.outcome(),
        Some(ReachabilityOutcome::AddressResolutionFailed { reason: reason.to_string() })
    );
    assert_eq!(run.address(), "");
    assert_eq!(
        run.failure_record(1_700_000_000),
        Some(NewReachabilityError {
            job: "0xabc123".to_string(),
            operator: "0x00000000000000000000000000000000000000bb".to_string(),
            ip: String::new(),
            error: reason.to_string(),
            timestamp: 1_700_000_000,
        })
    );
}

#[test]
fn failed_resolution_never_reaches_the_probes() {
    let (run, asked) = drive(launch(), &mut |action| match action {
        Action::PollControlPlane { .. } => Event::PollFailed,
        other => panic!("unexpected action {:?}", other),
    });
    for action in &asked {
        assert!(matches!(action, Action::Sleep { .. } | Action::PollControlPlane { .. }));
    }
    assert!(matches!(run.outcome(), Some(ReachabilityOutcome::AddressResolutionFailed { .. })));
    let reason = "IP address not found after 20 attempts. Last response: ";
    assert_eq!(run.outcome().unwrap().error(), Some(reason.to_string()));
}

#[test]
fn unreachable_transport_never_reaches_the_attestation() {
    let (run, asked) = drive(launch(), &mut |action| match action {
        Action::PollControlPlane { .. } => Event::PollAnswered { body: "{\"ip\":\"203.0.113.7\"}".to_string() },
        Action::Connect { .. } => Event::ConnectFailed,
        other => panic!("unexpected action {:?}", other),
    });
    assert_eq!(asked.iter().filter(|a| matches!(a, Action::Connect { .. })).count(), 10);
    assert_eq!(slept(&asked), 180 + 10 * 15);
    assert_eq!(run.outcome(), Some(ReachabilityOutcome::TransportUnreachable));
    assert_eq!(
        run.failure_record(-5),
        Some(NewReachabilityError::new(
            "0xabc123".to_string(),
            "0x00000000000000000000000000000000000000bb".to_string(),
            "203.0.113.7".to_string(),
            "Failed to establish TCP connection to the instance".to_string(),
            -5,
        ))
    );
}

#[test]
fn unreachable_attestation_is_recorded_with_the_address() {
    let (run, asked) = drive(launch(), &mut |action| match action {
        Action::PollControlPlane { .. } => Event::PollAnswered { body: "{\"ip\":\"203.0.113.7\"}".to_string() },
        Action::Connect { .. } => Event::Connected,
        Action::FetchAttestation { .. } => Event::AttestationAnswered { status: 200, document: Vec::new() },
        Action::Sleep { .. } => Event::Elapsed,
    });
    assert_eq!(asked.iter().filter(|a| matches!(a, Action::FetchAttestation { .. })).count(), 20);
    assert_eq!(run.outcome(), Some(ReachabilityOutcome::AttestationUnreachable));
    let record = run.failure_record(7).unwrap();
    assert_eq!(record.ip, "203.0.113.7");
    assert_eq!(record.error, "Instance reachability test failed");
    assert_eq!(record.job, "0xabc123");
    assert_eq!(record.timestamp, 7);
}

#[test]
fn the_slowest_run_waits_for_the_sum_of_all_ceilings() {
    let mut connects = 0;
    let (run, asked) = drive(launch(), &mut |action| match action {
        Action::PollControlPlane { .. } => Event::PollFailed,
        Action::Connect { .. } => {
            connects += 1;
            if connects < 10 { Event::ConnectTimedOut } else { Event::Connected }
        }
        Action::FetchAttestation { .. } => Event::AttestationFailed,
        Action::Sleep { .. } => Event::Elapsed,
    });
    assert!(matches!(run.outcome(), Some(ReachabilityOutcome::AddressResolutionFailed { .. })));
    assert_eq!(slept(&asked), 180 + 300);

    let mut polls = 0;
    let mut connects = 0;
    let (run, asked) = drive(launch(), &mut |action| match action {
        Action::PollControlPlane { .. } => {
            polls += 1;
            if polls < 20 { Event::PollFailed } else { Event::PollAnswered { body: "{\"ip\":\"h\"}".to_string() } }
        }
        Action::Connect { .. } => {
            connects += 1;
            if connects < 10 { Event::ConnectTimedOut } else { Event::Connected }
        }
        Action::FetchAttestation { .. } => Event::AttestationFailed,
        Action::Sleep { .. } => Event::Elapsed,
    });
    assert_eq!(run.outcome(), Some(ReachabilityOutcome::AttestationUnreachable));
    assert_eq!(slept(&asked), 180 + 19 * 15 + 9 * 15 + 20 * 15);
}

#[test]
fn stages_come_in_order() {
    let run = launch();
    assert_eq!(run.stage(), StageKind::Delaying);
    let run = run.advance(Event::Elapsed);
    assert_eq!(run.stage(), StageKind::ResolvingAddress);
    let run = run.advance(Event::PollAnswered { body: "{}".to_string() });
    assert_eq!(run.stage(), StageKind::ResolvingAddress);
    let run = run.advance(Event::Elapsed);
    let run = run.advance(Event::PollAnswered { body: "{\"ip\":\"10.0.0.5\"}".to_string() });
    assert_eq!(run.stage(), StageKind::ProbingTransport);
    assert_eq!(run.address(), "10.0.0.5");
    let run = run.advance(Event::ConnectTimedOut);
    assert_eq!(run.stage(), StageKind::ProbingTransport);
    assert_eq!(run.pending(), VerifierStep::Perform(Action::Sleep { secs: 15 }));
    let run = run.advance(Event::Elapsed).advance(Event::Connected);
    assert_eq!(run.stage(), StageKind::ProbingAttestation);
    let run = run.advance(Event::AttestationAnswered { status: 500, document: vec![1] });
    assert_eq!(run.stage(), StageKind::ProbingAttestation);
    let run = run.advance(Event::Elapsed);
    let run = run.advance(Event::AttestationAnswered { status: 200, document: vec![1] });
    assert_eq!(run.stage(), StageKind::Concluded);
    assert_eq!(run.outcome(), Some(ReachabilityOutcome::Success));
}

#[test]
fn a_run_ignores_what_it_did_not_ask_for() {
    let run = launch()
        .advance(Event::PollAnswered { body: "{\"ip\":\"10.0.0.5\"}".to_string() })
        .advance(Event::Connected)
        .advance(Event::AttestationAnswered { status: 200, document: vec![1] });
    assert_eq!(run.stage(), StageKind::Delaying);
    assert_eq!(run.pending(), VerifierStep::Perform(Action::Sleep { secs: 180 }));
    let run = run.advance(Event::Elapsed).advance(Event::Connected);
    assert_eq!(run.stage(), StageKind::ResolvingAddress);
    assert!(matches!(run.pending(), VerifierStep::Perform(Action::PollControlPlane { .. })));
}

#[test]
fn a_concluded_run_stays_concluded() {
    let (run, _) = drive(launch(), &mut |action| match action {
        Action::PollControlPlane { .. } => Event::PollFailed,
        other => panic!("unexpected action {:?}", other),
    });
    let outcome = run.outcome();
    let later = run
        .advance(Event::Elapsed)
        .advance(Event::PollAnswered { body: "{\"ip\":\"10.0.0.5\"}".to_string() })
        .advance(Event::Connected);
    assert_eq!(later.outcome(), outcome);
    assert_eq!(later.address(), "");
    assert_eq!(later.stage(), StageKind::Concluded);
}

#[test]
fn two_runs_do_not_touch_each_other() {
    let slow = launch();
    let other = JobOpened { job: vec![0x0b], ..announcement() };
    let quick = match on_job_opened(other, "http://cp.example".to_string(), Some(Metadata::empty()), VerifierConfig::standard()) {
        Intake::Launched(run) => run,
        Intake::Abandoned { .. } => panic!("abandoned"),
    };
    let slow = slow.advance(Event::Elapsed).advance(Event::PollFailed);
    let (quick, asked) = drive(quick, &mut |action| match action {
        Action::PollControlPlane { .. } => Event::PollAnswered { body: "{\"ip\":\"10.0.0.9\"}".to_string() },
        Action::Connect { .. } => Event::Connected,
        Action::FetchAttestation { .. } => Event::AttestationAnswered { status: 200, document: vec![1] },
        Action::Sleep { .. } => Event::Elapsed,
    });
    assert_eq!(quick.outcome(), Some(ReachabilityOutcome::Success));
    assert_eq!(
        asked[1],
        Action::PollControlPlane { url: "http://cp.example/ip?id=0x0b&region=".to_string() }
    );
    assert_eq!(slow.outcome(), None);
    assert_eq!(slow.stage(), StageKind::ResolvingAddress);
    assert_eq!(slow.pending(), VerifierStep::Perform(Action::Sleep { secs: 15 }));
    assert_eq!(slow.job().job_id, "0xabc123");
}

#[test]
fn outcomes_in_words() {
    assert_eq!(ReachabilityOutcome::Success.error(), None);
    assert!(ReachabilityOutcome::Success.is_success());
    assert!(!ReachabilityOutcome::TransportUnreachable.is_success());
    assert_eq!(
        ReachabilityOutcome::AddressResolutionFailed { reason: "why".to_string() }.error(),
        Some("why".to_string())
    );
    assert_eq!(
        ReachabilityOutcome::TransportUnreachable.error(),
        Some("Failed to establish TCP connection to the instance".to_string())
    );
    assert_eq!(
        ReachabilityOutcome::AttestationUnreachable.error(),
        Some("Instance reachability test failed".to_string())
    );
    let outcome = ReachabilityOutcome::AddressResolutionFailed { reason: "why".to_string() };
    assert_eq!(outcome.clone(), outcome);
}

#[test]
fn a_record_holds_what_it_was_given() {
    let record = NewReachabilityError::new(
        "0xabc123".to_string(),
        "op".to_string(),
        "10.0.0.5".to_string(),
        "cause".to_string(),
        1_700_000_000,
    );
    assert_eq!(record.job, "0xabc123");
    assert_eq!(record.operator, "op");
    assert_eq!(record.ip, "10.0.0.5");
    assert_eq!(record.error, "cause");
    assert_eq!(record.timestamp, 1_700_000_000);
}

#[test]
fn a_configuration_of_ones_own() {
    let config = VerifierConfig {
        startup_delay_secs: 0,
        port: 8443,
        connect_timeout_secs: 9,
        resolution: RetryPolicy { max_attempts: 1, interval_secs: 3 },
        transport: RetryPolicy { max_attempts: 1, interval_secs: 4 },
        attestation: RetryPolicy { max_attempts: 1, interval_secs: 5 },
    };
    let job = JobDescriptor::of(announcement(), "cp".to_string(), Metadata::empty());
    let (run, asked) = drive(ReachabilityVerifier::new(job, config), &mut |action| match action {
        Action::PollControlPlane { .. } => Event::PollAnswered { body: "{\"ip\":\"h\"}".to_string() },
        Action::Connect { .. } => Event::Connected,
        Action::FetchAttestation { .. } => Event::AttestationFailed,
        Action::Sleep { .. } => Event::Elapsed,
    });
    assert_eq!(
        asked,
        vec![
            Action::Sleep { secs: 0 },
            Action::PollControlPlane { url: "cp/ip?id=0xabc123&region=".to_string() },
            Action::Connect { address: "h:8443".to_string(), timeout_secs: 9 },
            Action::FetchAttestation { url: "http://h:8443/attestation/raw".to_string() },
            Action::Sleep { secs: 5 },
        ]
    );
    assert_eq!(run.outcome(), Some(ReachabilityOutcome::AttestationUnreachable));
}

fn seconds_of(action: &Action) -> u64 {
    match action {
        Action::Sleep { secs } => *secs,
        Action::Connect { timeout_secs, .. } => *timeout_secs,
        _ => 0,
    }
}

#[test]
fn no_run_takes_more_than_the_configuration_allows() {
    for polls_needed in [1u32, 7, 20, 21] {
        for connects_needed in [1u32, 4, 10, 11] {
            for fetches_needed in [1u32, 13, 20, 21] {
                let (mut polls, mut connects, mut fetches) = (0u32, 0u32, 0u32);
                let (run, asked) = drive(launch(), &mut |action| match action {
                    Action::PollControlPlane { .. } => {
                        polls += 1;
                        if polls < polls_needed {
                            Event::PollAnswered { body: "{}".to_string() }
                        } else {
                            Event::PollAnswered { body: "{\"ip\":\"h\"}".to_string() }
                        }
                    }
                    Action::Connect { .. } => {
                        connects += 1;
                        if connects < connects_needed { Event::ConnectTimedOut } else { Event::Connected }
                    }
                    Action::FetchAttestation { .. } => {
                        fetches += 1;
                        if fetches < fetches_needed {
                            Event::AttestationFailed
                        } else {
                            Event::AttestationAnswered { status: 200, document: vec![7] }
                        }
                    }
                    Action::Sleep { .. } => Event::Elapsed,
                });
                assert!(run.outcome().is_some());
                assert!(asked.len() <= 101);
                assert!(asked.iter().map(seconds_of).sum::<u64>() <= 950);
                let expected = if polls_needed > 20 {
                    ReachabilityOutcome::AddressResolutionFailed {
                        reason: "IP address not found after 20 attempts. Last response: {}".to_string(),
                    }
                } else if connects_needed > 10 {
                    ReachabilityOutcome::TransportUnreachable
                } else if fetches_needed > 20 {
                    ReachabilityOutcome::AttestationUnreachable
                } else {
                    ReachabilityOutcome::Success
                };
                assert_eq!(run.outcome(), Some(expected));
            }
        }
    }
}

#[test]
fn the_longest_run_uses_every_action_but_one_round() {
    let (mut polls, mut connects) = (0u32, 0u32);
    let (run, asked) = drive(launch(), &mut |action| match action {
        Action::PollControlPlane { .. } => {
            polls += 1;
            if polls < 20 { Event::PollFailed } else { Event::PollAnswered { body: "{\"ip\":\"h\"}".to_string() } }
        }
        Action::Connect { .. } => {
            connects += 1;
            if connects < 10 { Event::ConnectTimedOut } else { Event::Connected }
        }
        Action::FetchAttestation { .. } => Event::AttestationFailed,
        Action::Sleep { .. } => Event::Elapsed,
    });
    assert_eq!(run.outcome(), Some(ReachabilityOutcome::AttestationUnreachable));
    assert_eq!(asked.len(), 1 + 39 + 19 + 40);
    assert_eq!(asked.iter().map(seconds_of).sum::<u64>(), 180 + 19 * 15 + 10 * 2 + 9 * 15 + 20 * 15);
}
