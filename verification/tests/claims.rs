use infernal_taskmaster_simple::claims::{
    claim_granted, parse_claim_response, ClaimOutcome, ClaimRequest, WorkClaim,
};
use infernal_taskmaster_simple::error::TaskmasterError;

/// Reads a claim object by its field names.
fn decode_claim(body: &[u8]) -> Result<WorkClaim, String> {
    let document: serde_json::Value =
        serde_json::from_slice(body).map_err(|error| error.to_string())?;
    let text = |name: &str| {
        document
            .get(name)
            .and_then(|field| field.as_str())
            .map(|field| field.to_owned())
            .ok_or_else(|| format!("missing field `{name}`"))
    };
    let number = |name: &str| {
        document
            .get(name)
            .and_then(|field| field.as_i64())
            .ok_or_else(|| format!("missing field `{name}`"))
    };
    Ok(WorkClaim {
        claim_id: text("claim_id")?,
        route_id: text("route_id")?,
        worker_service_id: text("worker_service_id")?,
        worker_instance_id: text("worker_instance_id")?,
        fencing_token: number("fencing_token")?,
        status: text("status")?,
        claimed_at: number("claimed_at")?,
        lease_expires_at: number("lease_expires_at")?,
    })
}

/// Fails the test if the body is looked at.
fn undecodable(_body: &[u8]) -> Result<WorkClaim, String> {
    panic!("the body of a refusal was decoded")
}

#[test]
fn parses_a_successful_claim() {
    let body = br#"{"claim_id":"c1","route_id":"r1","worker_service_id":"w1","worker_instance_id":"i1","fencing_token":1,"status":"active","claimed_at":10,"lease_expires_at":310}"#;

    let outcome = parse_claim_response(201, body, decode_claim).unwrap();

    assert_eq!(
        outcome,
        ClaimOutcome::Claimed(WorkClaim {
            claim_id: "c1".to_owned(),
            route_id: "r1".to_owned(),
            worker_service_id: "w1".to_owned(),
            worker_instance_id: "i1".to_owned(),
            fencing_token: 1,
            status: "active".to_owned(),
            claimed_at: 10,
            lease_expires_at: 310,
        })
    );
}

#[test]
fn classifies_a_lost_race_as_already_claimed_not_an_error() {
    assert_eq!(
        parse_claim_response(409, br#"{"code":"route_already_claimed"}"#, undecodable).unwrap(),
        ClaimOutcome::AlreadyClaimed
    );
}

#[test]
fn classifies_an_unowned_or_unknown_route_as_route_not_found() {
    assert_eq!(
        parse_claim_response(404, br#"{"code":"claim_not_found"}"#, undecodable).unwrap(),
        ClaimOutcome::RouteNotFound
    );
}

#[test]
fn surfaces_any_other_status_as_an_error() {
    assert!(matches!(
        parse_claim_response(503, b"{}", undecodable),
        Err(TaskmasterError::UnexpectedStatus(503))
    ));
}

#[test]
fn rejects_a_malformed_success_body() {
    assert!(matches!(
        parse_claim_response(201, b"not json", decode_claim),
        Err(TaskmasterError::MalformedResponse(_))
    ));
}

#[test]
fn a_success_body_that_lacks_a_field_is_malformed() {
    let body = br#"{"claim_id":"c1"}"#;

    assert_eq!(
        parse_claim_response(201, body, decode_claim),
        Err(TaskmasterError::MalformedResponse(
            "missing field `route_id`".to_owned()
        ))
    );
}

#[test]
fn only_a_created_status_is_a_grant() {
    let body = br#"{"claim_id":"c1","route_id":"r1","worker_service_id":"w1","worker_instance_id":"i1","fencing_token":1,"status":"active","claimed_at":10,"lease_expires_at":310}"#;

    for status in [0, 100, 200, 202, 204, 301, 400, 401, 403, 410, 500, 65535] {
        assert_eq!(
            parse_claim_response(status, body, undecodable),
            Err(TaskmasterError::UnexpectedStatus(status))
        );
    }
}

#[test]
fn the_body_handed_to_the_decoder_is_the_answer_body() {
    let outcome = parse_claim_response(201, b"the very body", |body: &[u8]| {
        assert_eq!(body, b"the very body");
        Err("seen".to_owned())
    });

    assert_eq!(
        outcome,
        Err(TaskmasterError::MalformedResponse("seen".to_owned()))
    );
}

#[test]
fn a_decoder_message_is_kept() {
    assert_eq!(
        claim_granted(Err("expected ident at line 1 column 2".to_owned())),
        Err(TaskmasterError::MalformedResponse(
            "expected ident at line 1 column 2".to_owned()
        ))
    );
}

#[test]
fn a_proposal_is_compact_json() {
    let cases: [(i64, &[u8]); 7] = [
        (300, br#"{"lease_seconds":300}"#),
        (0, br#"{"lease_seconds":0}"#),
        (7, br#"{"lease_seconds":7}"#),
        (10, br#"{"lease_seconds":10}"#),
        (-45, br#"{"lease_seconds":-45}"#),
        (i64::MAX, br#"{"lease_seconds":9223372036854775807}"#),
        (i64::MIN, br#"{"lease_seconds":-9223372036854775808}"#),
    ];
    for (lease_seconds, body) in cases {
        assert_eq!(ClaimRequest { lease_seconds }.to_body(), body);
    }
}

#[test]
fn different_leases_have_different_bodies() {
    let bodies: Vec<Vec<u8>> = [-300, -30, -3, 0, 3, 30, 300, 3000]
        .iter()
        .map(|lease_seconds| {
            ClaimRequest {
                lease_seconds: *lease_seconds,
            }
            .to_body()
        })
        .collect();
    for i in 0..bodies.len() {
        for j in 0..i {
            assert_ne!(bodies[i], bodies[j]);
        }
    }
}
