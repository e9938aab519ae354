use infernal_taskmaster_simple::instance_lease::RENEW_INSTANCE_PATH;
use infernal_taskmaster_simple::kernel_client::{
    build_claim_request, build_eligible_routes_request, build_renewal_request, KernelClient,
};
use infernal_taskmaster_simple::routes::ELIGIBLE_ROUTES_PATH;

const REQUEST_ID: u128 = 0x5b3f_0c1a_2d4e_4f60_8a7b_9c0d_1e2f_3a4b;

fn client() -> KernelClient {
    KernelClient::new(7, "kernel.example.test".to_owned())
}

#[test]
fn the_eligible_routes_request_verifies_under_its_own_public_key() {
    let order = build_eligible_routes_request("kernel.example.test", REQUEST_ID, 1_000);

    assert_eq!(order.parts.method, "GET");
    assert_eq!(order.parts.path_and_query, ELIGIBLE_ROUTES_PATH);
    assert!(order.parts.body.is_empty());
    assert!(order.created_at <= 1_005 && 1_005 <= order.expires_at);
}

#[test]
fn the_eligible_routes_request_names_its_kernel_and_its_identifier() {
    let order = build_eligible_routes_request("kernel.example.test", REQUEST_ID, 1_000);

    assert_eq!(order.parts.authority, "kernel.example.test");
    assert_eq!(order.parts.path_and_query, "/v1/routes/eligible");
    assert_eq!(order.parts.content_type, "application/json");
    assert_eq!(order.parts.request_id, REQUEST_ID);
}

#[test]
fn the_renewal_request_targets_the_instances_path_and_carries_the_expected_revision() {
    let order = build_renewal_request("kernel.example.test", 3, REQUEST_ID, 1_000);

    assert_eq!(order.parts.method, "POST");
    assert_eq!(order.parts.path_and_query, RENEW_INSTANCE_PATH);
    assert_eq!(order.parts.body, br#"{"expected_revision":3}"#);
    assert!(order.created_at <= 1_005 && 1_005 <= order.expires_at);
}

#[test]
fn the_claim_request_targets_the_right_route_and_carries_the_lease() {
    let order = build_claim_request("kernel.example.test", "route-42", 300, REQUEST_ID, 1_000);

    assert_eq!(order.parts.method, "POST");
    assert_eq!(order.parts.path_and_query, "/v1/routes/route-42/claims");
    assert_eq!(order.parts.body, br#"{"lease_seconds":300}"#);
    assert!(order.created_at <= 1_005 && 1_005 <= order.expires_at);
}

#[test]
fn a_signature_is_good_for_half_a_minute() {
    let order = build_eligible_routes_request("kernel.example.test", REQUEST_ID, 1_000);

    assert_eq!(order.created_at, 1_000);
    assert_eq!(order.expires_at, 1_030);

    let order = build_renewal_request("kernel.example.test", 1, REQUEST_ID, i64::MAX - 30);

    assert_eq!(order.expires_at, i64::MAX);
}

#[test]
fn claims_on_different_routes_go_to_different_paths() {
    let one = build_claim_request("k", "a/claims", 1, REQUEST_ID, 0);
    let other = build_claim_request("k", "a", 1, REQUEST_ID, 0);

    assert_eq!(one.parts.path_and_query, "/v1/routes/a/claims/claims");
    assert_ne!(one.parts.path_and_query, other.parts.path_and_query);
}

#[test]
fn a_client_builds_its_calls_for_its_own_kernel() {
    let listing = client().eligible_routes(5);
    let claim = client().propose_claim("r1", 60, 5);
    let renewal = client().renew_lease(9, 5);

    assert_eq!(listing.parts.authority, "kernel.example.test");
    assert_eq!(listing.parts.path_and_query, "/v1/routes/eligible");
    assert_eq!(claim.parts.authority, "kernel.example.test");
    assert_eq!(claim.parts.path_and_query, "/v1/routes/r1/claims");
    assert_eq!(claim.parts.body, br#"{"lease_seconds":60}"#);
    assert_eq!(renewal.parts.authority, "kernel.example.test");
    assert_eq!(renewal.parts.body, br#"{"expected_revision":9}"#);
}

#[test]
fn every_call_of_a_client_has_a_fresh_random_identifier() {
    let ids = [
        client().eligible_routes(5).parts.request_id,
        client().propose_claim("r1", 60, 5).parts.request_id,
        client().renew_lease(9, 5).parts.request_id,
    ];

    for id in ids {
        let id = uuid::Uuid::from_u128(id);
        assert_eq!(id.get_version(), Some(uuid::Version::Random));
        assert_eq!(id.get_variant(), uuid::Variant::RFC4122);
    }
    assert_ne!(ids[0], ids[1]);
    assert_ne!(ids[1], ids[2]);
    assert_ne!(ids[0], ids[2]);
}

#[test]
fn enrollment_goes_over_https() {
    assert_eq!(client().base_url(), "https://kernel.example.test");

    let call = client().request_challenge("pod-1", "token-1");

    assert_eq!(call.base_url, "https://kernel.example.test");
    assert_eq!(call.pod_uid, "pod-1");
    assert_eq!(call.workload_token, "token-1");

    let call = client().enroll([9; 32], "https://me.example.test", "pod-1", "t".to_owned());

    assert_eq!(call.base_url, "https://kernel.example.test");
    assert_eq!(call.challenge, [9; 32]);
    assert_eq!(call.endpoint, "https://me.example.test");
    assert_eq!(call.pod_uid, "pod-1");
    assert_eq!(call.workload_token, "t");
}

#[test]
fn an_extra_certificate_authority_is_kept() {
    let plain = client();
    let private =
        KernelClient::with_extra_root_certificate(7, "k".to_owned(), b"-----BEGIN".to_vec());

    assert_eq!(plain.extra_root_certificate_pem, None);
    assert_eq!(plain.service_id, 7);
    assert_eq!(
        private.extra_root_certificate_pem,
        Some(b"-----BEGIN".to_vec())
    );
    assert_eq!(private.authority, "k");
}
