use infernal_taskmaster_simple::claims::ClaimOutcome;
use infernal_taskmaster_simple::clock::{unix_seconds, unix_time};
use infernal_taskmaster_simple::config::Config;
use infernal_taskmaster_simple::error::TaskmasterError;
use infernal_taskmaster_simple::instance_lease::{
    parse_renewal_response, record_renewal, renewal_due, renewal_request_body, InstanceLease,
    RenewedLease, RENEWAL_MARGIN_SECONDS,
};
use infernal_taskmaster_simple::kernel_client::KernelClient;
use infernal_taskmaster_simple::routes::{parse_eligible_routes, EligibleRoute};
use infernal_taskmaster_simple::run::{next_action, RunAction, RunEvent};
use infernal_taskmaster_simple::scheduler::ScheduleOutcome;

fn config(instance_lease: Option<InstanceLease>) -> Config {
    Config {
        client: KernelClient::new(7, "kernel.example.test".to_owned()),
        lease_seconds: 300,
        poll_interval_seconds: 5,
        instance_lease,
    }
}

fn lease(revision: i64, expires_at: i64) -> InstanceLease {
    InstanceLease {
        revision,
        expires_at,
    }
}

fn held(config: &Config) -> Option<(i64, i64)> {
    config
        .instance_lease
        .map(|lease| (lease.revision, lease.expires_at))
}

#[test]
fn a_round_without_a_lease_schedules_and_sleeps() {
    let mut config = config(None);

    assert_eq!(
        next_action(&mut config, RunEvent::Woke { now: i64::MAX }),
        RunAction::Schedule { lease_seconds: 300 }
    );
    assert_eq!(
        next_action(
            &mut config,
            RunEvent::Scheduled(Ok(ScheduleOutcome::NothingEligible))
        ),
        RunAction::Sleep { seconds: 5 }
    );
    assert_eq!(held(&config), None);
}

#[test]
fn a_failed_pass_sleeps_like_any_other() {
    let mut config = config(None);

    for outcome in [
        Err(TaskmasterError::UnexpectedStatus(503)),
        Ok(ScheduleOutcome::NothingEligible),
        Ok(ScheduleOutcome::Proposed {
            route_id: "r1".to_owned(),
            outcome: ClaimOutcome::AlreadyClaimed,
        }),
    ] {
        assert_eq!(
            next_action(&mut config, RunEvent::Scheduled(outcome)),
            RunAction::Sleep { seconds: 5 }
        );
    }
}

#[test]
fn a_lease_is_renewed_a_margin_before_it_expires() {
    let mut config = config(Some(lease(1, 1_000)));

    assert_eq!(
        next_action(
            &mut config,
            RunEvent::Woke {
                now: 1_000 - RENEWAL_MARGIN_SECONDS - 1
            }
        ),
        RunAction::Schedule { lease_seconds: 300 }
    );
    assert_eq!(
        next_action(
            &mut config,
            RunEvent::Woke {
                now: 1_000 - RENEWAL_MARGIN_SECONDS
            }
        ),
        RunAction::RenewLease {
            expected_revision: 1
        }
    );
    assert_eq!(
        next_action(&mut config, RunEvent::Woke { now: 2_000 }),
        RunAction::RenewLease {
            expected_revision: 1
        }
    );
}

#[test]
fn a_renewed_lease_is_held_and_quoted_next_time() {
    let mut config = config(Some(lease(1, 1_000)));

    assert_eq!(
        next_action(
            &mut config,
            RunEvent::Renewed(Ok(RenewedLease {
                lease_revision: 2,
                lease_expires_at: 1_060,
            }))
        ),
        RunAction::Schedule { lease_seconds: 300 }
    );
    assert_eq!(held(&config), Some((2, 1_060)));
    assert_eq!(
        next_action(&mut config, RunEvent::Woke { now: 1_000 }),
        RunAction::Schedule { lease_seconds: 300 }
    );
    assert_eq!(
        next_action(&mut config, RunEvent::Woke { now: 1_059 }),
        RunAction::RenewLease {
            expected_revision: 2
        }
    );
}

#[test]
fn a_failed_renewal_is_tried_again_next_round() {
    let mut config = config(Some(lease(1, 1_000)));

    assert_eq!(
        next_action(&mut config, RunEvent::Woke { now: 995 }),
        RunAction::RenewLease {
            expected_revision: 1
        }
    );
    assert_eq!(
        next_action(
            &mut config,
            RunEvent::Renewed(Err(TaskmasterError::UnexpectedStatus(503)))
        ),
        RunAction::Schedule { lease_seconds: 300 }
    );
    assert_eq!(held(&config), Some((1, 1_000)));
    assert_eq!(
        next_action(
            &mut config,
            RunEvent::Scheduled(Err(TaskmasterError::UnexpectedStatus(503)))
        ),
        RunAction::Sleep { seconds: 5 }
    );
    assert_eq!(
        next_action(&mut config, RunEvent::Woke { now: 1_000 }),
        RunAction::RenewLease {
            expected_revision: 1
        }
    );
}

#[test]
fn an_untracked_lease_is_never_renewed() {
    let mut held = None;

    assert_eq!(renewal_due(&held, i64::MAX), None);
    record_renewal(
        &mut held,
        &Ok(RenewedLease {
            lease_revision: 2,
            lease_expires_at: 60,
        }),
    );
    assert!(held.is_none());
}

#[test]
fn a_renewal_is_compact_json() {
    assert_eq!(renewal_request_body(3), br#"{"expected_revision":3}"#);
    assert_eq!(renewal_request_body(-12), br#"{"expected_revision":-12}"#);
    assert_ne!(renewal_request_body(1), renewal_request_body(11));
}

#[test]
fn a_renewal_answer_is_read_only_where_it_reports_success() {
    let renewed = RenewedLease {
        lease_revision: 2,
        lease_expires_at: 60,
    };

    assert_eq!(
        parse_renewal_response(200, b"body", |body: &[u8]| {
            assert_eq!(body, b"body");
            Ok(renewed)
        }),
        Ok(renewed)
    );
    assert_eq!(
        parse_renewal_response(200, b"body", |_body: &[u8]| Err("no".to_owned())),
        Err(TaskmasterError::MalformedResponse("no".to_owned()))
    );
    assert_eq!(
        parse_renewal_response(409, b"body", |_body: &[u8]| panic!("decoded")),
        Err(TaskmasterError::UnexpectedStatus(409))
    );
}

#[test]
fn a_listing_is_read_only_where_it_reports_success() {
    let route = EligibleRoute {
        route_id: "r1".to_owned(),
        request_id: "q1".to_owned(),
        subscription_id: "s1".to_owned(),
        destination_service_id: "d1".to_owned(),
        created_at: 1,
    };
    let listed = vec![route.clone(), route];

    assert_eq!(
        parse_eligible_routes(200, b"body", |body: &[u8]| {
            assert_eq!(body, b"body");
            Ok(listed.clone())
        }),
        Ok(listed.clone())
    );
    assert_eq!(
        parse_eligible_routes(200, b"body", |_body: &[u8]| Err("no".to_owned())),
        Err(TaskmasterError::MalformedResponse("no".to_owned()))
    );
    assert_eq!(
        parse_eligible_routes(500, b"body", |_body: &[u8]| panic!("decoded")),
        Err(TaskmasterError::UnexpectedStatus(500))
    );
}

#[test]
fn the_clock_counts_from_the_epoch() {
    // The year 2020 is over.
    assert!(unix_time() > 1_600_000_000);
    assert_eq!(unix_seconds(Some(5)), 5);
    assert_eq!(unix_seconds(Some(i64::MAX as u64)), i64::MAX);
    assert_eq!(unix_seconds(Some(u64::MAX)), i64::MAX);
    assert_eq!(unix_seconds(None), 0);
}
