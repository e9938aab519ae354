use std::sync::Mutex;

use infernal_taskmaster_simple::claims::{ClaimOutcome, WorkClaim};
use infernal_taskmaster_simple::error::TaskmasterError;
use infernal_taskmaster_simple::kernel_client::KernelPort;
use infernal_taskmaster_simple::routes::EligibleRoute;
use infernal_taskmaster_simple::scheduler::{
    first_route, pass_with, schedule_once, ScheduleOutcome,
};

#[derive(Default)]
struct FakePort {
    routes: Vec<EligibleRoute>,
    claimed: Mutex<Vec<String>>,
    next_outcome: Option<ClaimOutcome>,
}

impl KernelPort for FakePort {
    fn eligible_routes(&self) -> Result<Vec<EligibleRoute>, TaskmasterError> {
        Ok(self.routes.clone())
    }

    fn propose_claim(
        &self,
        route_id: &str,
        _lease_seconds: i64,
    ) -> Result<ClaimOutcome, TaskmasterError> {
        self.claimed.lock().unwrap().push(route_id.to_owned());
        Ok(self
            .next_outcome
            .clone()
            .unwrap_or(ClaimOutcome::AlreadyClaimed))
    }
}

/// Lists what it is given and answers every proposal with an error that
/// shows the lease it was asked for. Keeps a log of its calls.
struct FailingPort {
    listing: Result<Vec<EligibleRoute>, u16>,
    calls: Mutex<Vec<String>>,
}

impl KernelPort for FailingPort {
    fn eligible_routes(&self) -> Result<Vec<EligibleRoute>, TaskmasterError> {
        self.calls.lock().unwrap().push("list".to_owned());
        match &self.listing {
            Ok(routes) => Ok(routes.clone()),
            Err(status) => Err(TaskmasterError::UnexpectedStatus(*status)),
        }
    }

    fn propose_claim(
        &self,
        route_id: &str,
        lease_seconds: i64,
    ) -> Result<ClaimOutcome, TaskmasterError> {
        let call = format!("{route_id} for {lease_seconds}");
        self.calls.lock().unwrap().push(call.clone());
        Err(TaskmasterError::Client(call))
    }
}

fn route(id: &str, created_at: i64) -> EligibleRoute {
    EligibleRoute {
        route_id: id.to_owned(),
        request_id: "request-1".to_owned(),
        subscription_id: "subscription-1".to_owned(),
        destination_service_id: "destination-1".to_owned(),
        created_at,
    }
}

#[test]
fn does_nothing_when_no_route_is_eligible() {
    let port = FakePort::default();

    let outcome = schedule_once(&port, 300).unwrap();

    assert!(matches!(outcome, ScheduleOutcome::NothingEligible));
    assert!(port.claimed.lock().unwrap().is_empty());
}

#[test]
fn proposes_a_claim_for_the_oldest_eligible_route() {
    let claim = WorkClaim {
        claim_id: "c1".to_owned(),
        route_id: "first".to_owned(),
        worker_service_id: "w1".to_owned(),
        worker_instance_id: "i1".to_owned(),
        fencing_token: 1,
        status: "active".to_owned(),
        claimed_at: 1,
        lease_expires_at: 301,
    };
    let port = FakePort {
        routes: vec![route("first", 1), route("second", 2)],
        claimed: Mutex::new(Vec::new()),
        next_outcome: Some(ClaimOutcome::Claimed(claim.clone())),
    };

    let outcome = schedule_once(&port, 300).unwrap();

    assert_eq!(port.claimed.lock().unwrap().as_slice(), ["first"]);
    match outcome {
        ScheduleOutcome::Proposed { route_id, outcome } => {
            assert_eq!(route_id, "first");
            assert_eq!(outcome, ClaimOutcome::Claimed(claim));
        }
        ScheduleOutcome::NothingEligible => panic!("expected a proposal"),
    }
}

#[test]
fn a_lost_race_is_reported_not_treated_as_an_error() {
    let port = FakePort {
        routes: vec![route("first", 1)],
        claimed: Mutex::new(Vec::new()),
        next_outcome: Some(ClaimOutcome::AlreadyClaimed),
    };

    let outcome = schedule_once(&port, 300).unwrap();

    match outcome {
        ScheduleOutcome::Proposed { outcome, .. } => {
            assert_eq!(outcome, ClaimOutcome::AlreadyClaimed);
        }
        ScheduleOutcome::NothingEligible => panic!("expected a proposal"),
    }
}

#[test]
fn an_unowned_route_is_reported_not_treated_as_an_error() {
    let port = FakePort {
        routes: vec![route("first", 1)],
        claimed: Mutex::new(Vec::new()),
        next_outcome: Some(ClaimOutcome::RouteNotFound),
    };

    match schedule_once(&port, 300).unwrap() {
        ScheduleOutcome::Proposed { route_id, outcome } => {
            assert_eq!(route_id, "first");
            assert_eq!(outcome, ClaimOutcome::RouteNotFound);
        }
        ScheduleOutcome::NothingEligible => panic!("expected a proposal"),
    }
}

#[test]
fn a_failed_listing_ends_the_pass() {
    let port = FailingPort {
        listing: Err(503),
        calls: Mutex::new(Vec::new()),
    };

    assert!(matches!(
        schedule_once(&port, 300),
        Err(TaskmasterError::UnexpectedStatus(503))
    ));
    assert_eq!(port.calls.lock().unwrap().as_slice(), ["list"]);
}

#[test]
fn a_failed_proposal_ends_the_pass_with_its_error() {
    let port = FailingPort {
        listing: Ok(vec![route("first", 1), route("second", 2)]),
        calls: Mutex::new(Vec::new()),
    };

    match schedule_once(&port, 42) {
        Err(TaskmasterError::Client(reason)) => assert_eq!(reason, "first for 42"),
        _ => panic!("expected the proposal's error"),
    }
    assert_eq!(
        port.calls.lock().unwrap().as_slice(),
        ["list", "first for 42"]
    );
}

#[test]
fn an_empty_listing_is_asked_for_once_and_nothing_is_proposed() {
    let port = FailingPort {
        listing: Ok(Vec::new()),
        calls: Mutex::new(Vec::new()),
    };

    assert!(matches!(
        schedule_once(&port, 300),
        Ok(ScheduleOutcome::NothingEligible)
    ));
    assert_eq!(port.calls.lock().unwrap().as_slice(), ["list"]);
}

#[test]
fn the_listing_order_decides_not_the_timestamps() {
    let port = FakePort {
        routes: vec![route("listed first", 9), route("listed second", 2)],
        claimed: Mutex::new(Vec::new()),
        next_outcome: None,
    };

    schedule_once(&port, 300).unwrap();

    assert_eq!(port.claimed.lock().unwrap().as_slice(), ["listed first"]);
}

#[test]
fn the_first_route_of_a_listing_in_creation_order_is_the_oldest() {
    let listing = vec![route("a", 3), route("b", 3), route("a", 5)];
    let oldest = listing.iter().map(|listed| listed.created_at).min();

    let first = first_route(listing);

    assert_eq!(first.map(|listed| listed.created_at), oldest);
    assert_eq!(first_route(Vec::new()), None);
}

#[test]
fn a_single_pass_uses_up_one_listing_and_one_proposal() {
    let listing = vec![route("b", 5), route("a", 1)];
    let answer = ClaimOutcome::AlreadyClaimed;
    let mut proposed = Vec::new();

    let result = pass_with(
        move || Ok(listing),
        |route_id, lease_seconds| {
            proposed.push((route_id.to_owned(), lease_seconds));
            Ok(answer)
        },
        300,
    );

    match result {
        Ok(ScheduleOutcome::Proposed { route_id, outcome }) => {
            assert_eq!(route_id, "b");
            assert_eq!(outcome, ClaimOutcome::AlreadyClaimed);
        }
        _ => panic!("expected a proposal"),
    }
    assert_eq!(proposed, [("b".to_owned(), 300)]);
}

#[test]
fn a_single_pass_proposes_nothing_where_nothing_is_listed() {
    let outcome = pass_with(
        || Ok(Vec::new()),
        |_, _| panic!("nothing was listed"),
        300,
    );
    assert!(matches!(outcome, Ok(ScheduleOutcome::NothingEligible)));

    let failure = pass_with(
        || Err(TaskmasterError::UnexpectedStatus(503)),
        |_, _| panic!("nothing was listed"),
        300,
    );
    assert!(matches!(
        failure,
        Err(TaskmasterError::UnexpectedStatus(503))
    ));
}

#[test]
fn a_single_pass_does_not_retry_a_failed_proposal() {
    let mut proposed = Vec::new();

    let result = pass_with(
        || Ok(vec![route("first", 1), route("second", 2)]),
        |route_id, lease_seconds| {
            proposed.push((route_id.to_owned(), lease_seconds));
            Err(TaskmasterError::UnexpectedStatus(500))
        },
        -7,
    );

    assert!(matches!(
        result,
        Err(TaskmasterError::UnexpectedStatus(500))
    ));
    assert_eq!(proposed, [("first".to_owned(), -7)]);
}
