//! The calls this scheduler makes into the kernel. Every one is decided here
//! down to the byte -- method, path, body and the span its signature is good
//! for -- and left to the transport to sign and send. Scheduling policy sees
//! the kernel only through [`KernelPort`], so it holds for any kernel behind
//! that interface.

use vstd::prelude::*;
use vstd::string::*;
use vstd::utf8::encode_utf8;

use crate::challenge::CHALLENGE_LENGTH;
use crate::claims::{ClaimOutcome, ClaimRequest};
use crate::error::TaskmasterError;
use crate::identity::new_request_id;
use crate::instance_lease::{renewal_request_body, RENEW_INSTANCE_PATH};
use crate::numbers::{as_text, i64_value, is_plain, lemma_framed_decimal_reads_back};
use crate::routes::{EligibleRoute, ELIGIBLE_ROUTES_PATH};

verus! {

/// How long the kernel may accept a signature after it was made.
pub const SIGNATURE_VALIDITY_SECONDS: i64 = 30;

/// The content type of every call.
pub const CONTENT_TYPE: &'static str = "application/json";

/// The kernel operations that scheduling needs.
pub trait KernelPort {
    /// The proposals this port lets its callers make: all of them, unless the
    /// port says otherwise. Code over any port cannot know what it says, so it
    /// makes no proposal but those it asks leave for.
    open spec fn may_propose(&self, route_id: Seq<char>, lease_seconds: i64) -> bool {
        true
    }

    /// The routes this service may claim, oldest first.
    fn eligible_routes(&self) -> Result<Vec<EligibleRoute>, TaskmasterError>;

    /// Proposes a claim and reports the kernel's arbitration.
    fn propose_claim(&self, route_id: &str, lease_seconds: i64) -> Result<
        ClaimOutcome,
        TaskmasterError,
    >
        requires
            self.may_propose(route_id@, lease_seconds),
    ;
}

/// The parts of a call that its signature covers.
#[derive(Debug)]
pub struct RequestParts {
    pub method: &'static str,
    pub authority: String,
    pub path_and_query: String,
    pub content_type: &'static str,
    pub body: Vec<u8>,
    pub request_id: u128,
}

/// A call and the span its signature is to be good for, both in seconds since
/// the epoch.
#[derive(Debug)]
pub struct SigningOrder {
    pub parts: RequestParts,
    pub created_at: i64,
    pub expires_at: i64,
}

/// [`RequestParts`] as text and bytes.
pub struct RequestPartsView {
    pub method: Seq<char>,
    pub authority: Seq<char>,
    pub path_and_query: Seq<char>,
    pub content_type: Seq<char>,
    pub body: Seq<u8>,
    pub request_id: u128,
}

impl View for RequestParts {
    type V = RequestPartsView;

    open spec fn view(&self) -> RequestPartsView {
        RequestPartsView {
            method: self.method@,
            authority: self.authority@,
            path_and_query: self.path_and_query@,
            content_type: self.content_type@,
            body: self.body@,
            request_id: self.request_id,
        }
    }
}

/// `/v1/routes/{route_id}/claims`.
pub open spec fn claim_path(route_id: Seq<char>) -> Seq<char> {
    "/v1/routes/"@ + route_id + "/claims"@
}

/// The listing call: a bodiless `GET`.
pub open spec fn eligible_routes_parts(
    authority: Seq<char>,
    request_id: u128,
) -> RequestPartsView {
    RequestPartsView {
        method: "GET"@,
        authority,
        path_and_query: ELIGIBLE_ROUTES_PATH@,
        content_type: CONTENT_TYPE@,
        body: Seq::empty(),
        request_id,
    }
}

/// The claim call: a `POST` to the route's own path that names the lease.
pub open spec fn claim_parts(
    authority: Seq<char>,
    route_id: Seq<char>,
    lease_seconds: i64,
    request_id: u128,
) -> RequestPartsView {
    RequestPartsView {
        method: "POST"@,
        authority,
        path_and_query: claim_path(route_id),
        content_type: CONTENT_TYPE@,
        body: crate::claims::claim_body(lease_seconds),
        request_id,
    }
}

/// The renewal call: a `POST` that names the revision this process holds.
pub open spec fn renewal_parts(
    authority: Seq<char>,
    expected_revision: i64,
    request_id: u128,
) -> RequestPartsView {
    RequestPartsView {
        method: "POST"@,
        authority,
        path_and_query: RENEW_INSTANCE_PATH@,
        content_type: CONTENT_TYPE@,
        body: crate::instance_lease::renewal_body(expected_revision),
        request_id,
    }
}

impl SigningOrder {
    /// The call is `parts`, signed at `now` and good for the usual span.
    pub open spec fn orders(self, parts: RequestPartsView, now: i64) -> bool {
        &&& self.parts@ == parts
        &&& self.created_at == now
        &&& self.expires_at == now + SIGNATURE_VALIDITY_SECONDS
    }
}

/// Orders a signature over `parts`, made at `now`. A clock so close to the
/// end of its range that the span cannot be counted is left out.
pub fn sign(parts: RequestParts, now: i64) -> (order: SigningOrder)
    requires
        now + SIGNATURE_VALIDITY_SECONDS <= i64::MAX,
    ensures
        order.parts == parts,
        order.orders(parts@, now),
{
    SigningOrder { parts, created_at: now, expires_at: now + SIGNATURE_VALIDITY_SECONDS }
}

/// The listing call to the kernel at `authority`.
pub fn build_eligible_routes_request(authority: &str, request_id: u128, now: i64) -> (order:
    SigningOrder)
    requires
        now + SIGNATURE_VALIDITY_SECONDS <= i64::MAX,
    ensures
        order.orders(eligible_routes_parts(authority@, request_id), now),
{
    let parts = RequestParts {
        method: "GET",
        authority: authority.to_owned(),
        path_and_query: ELIGIBLE_ROUTES_PATH.to_owned(),
        content_type: CONTENT_TYPE,
        body: Vec::new(),
        request_id,
    };
    sign(parts, now)
}

/// The call that proposes a claim on `route_id` to the kernel at `authority`.
pub fn build_claim_request(
    authority: &str,
    route_id: &str,
    lease_seconds: i64,
    request_id: u128,
    now: i64,
) -> (order: SigningOrder)
    requires
        now + SIGNATURE_VALIDITY_SECONDS <= i64::MAX,
    ensures
        order.orders(claim_parts(authority@, route_id@, lease_seconds, request_id), now),
{
    let body: Vec<u8> = ClaimRequest { lease_seconds }.to_body();
    let path: String = "/v1/routes/".to_owned().concat(route_id).concat("/claims");
    let parts = RequestParts {
        method: "POST",
        authority: authority.to_owned(),
        path_and_query: path,
        content_type: CONTENT_TYPE,
        body,
        request_id,
    };
    sign(parts, now)
}

/// The call that renews this instance's lease with the kernel at `authority`.
pub fn build_renewal_request(
    authority: &str,
    expected_revision: i64,
    request_id: u128,
    now: i64,
) -> (order: SigningOrder)
    requires
        now + SIGNATURE_VALIDITY_SECONDS <= i64::MAX,
    ensures
        order.orders(renewal_parts(authority@, expected_revision, request_id), now),
{
    let body: Vec<u8> = renewal_request_body(expected_revision);
    let parts = RequestParts {
        method: "POST",
        authority: authority.to_owned(),
        path_and_query: RENEW_INSTANCE_PATH.to_owned(),
        content_type: CONTENT_TYPE,
        body,
        request_id,
    };
    sign(parts, now)
}

/// An enrollment challenge to ask the kernel for.
#[derive(Debug)]
pub struct ChallengeCall {
    pub base_url: String,
    pub pod_uid: String,
    pub workload_token: String,
}

/// An enrollment to sign with this process's own credential and submit.
#[derive(Debug)]
pub struct EnrollmentCall {
    pub base_url: String,
    pub challenge: [u8; CHALLENGE_LENGTH],
    pub endpoint: String,
    pub pod_uid: String,
    pub workload_token: String,
}

/// Who this process is and which kernel it talks to.
#[derive(Debug)]
pub struct KernelClient {
    /// The identity whose credential signs every call.
    pub service_id: u128,
    /// The kernel's host and, if needed, port; never a scheme or path.
    pub authority: String,
    /// A certificate authority to trust besides the public ones.
    pub extra_root_certificate_pem: Option<Vec<u8>>,
}

/// `https://{authority}`.
pub open spec fn https_url(authority: Seq<char>) -> Seq<char> {
    "https://"@ + authority
}

impl KernelClient {
    /// A client that trusts the public certificate authorities.
    pub fn new(service_id: u128, authority: String) -> (client: Self)
        ensures
            client == (KernelClient { service_id, authority, extra_root_certificate_pem: None }),
    {
        KernelClient { service_id, authority, extra_root_certificate_pem: None }
    }

    /// Like [`KernelClient::new`], but trusts one more certificate authority,
    /// for a kernel behind a private or self-signed one.
    pub fn with_extra_root_certificate(
        service_id: u128,
        authority: String,
        extra_root_certificate_pem: Vec<u8>,
    ) -> (client: Self)
        ensures
            client == (KernelClient {
                service_id,
                authority,
                extra_root_certificate_pem: Some(extra_root_certificate_pem),
            }),
    {
        KernelClient {
            service_id,
            authority,
            extra_root_certificate_pem: Some(extra_root_certificate_pem),
        }
    }

    /// Where enrollment calls go; always over HTTPS.
    pub fn base_url(&self) -> (url: String)
        ensures
            url@ == https_url(self.authority@),
    {
        "https://".to_owned().concat(self.authority.as_str())
    }

    /// The call that asks the kernel to issue this workload an enrollment
    /// challenge of its own.
    pub fn request_challenge(&self, pod_uid: &str, workload_token: &str) -> (call: ChallengeCall)
        ensures
            call.base_url@ == https_url(self.authority@),
            call.pod_uid@ == pod_uid@,
            call.workload_token@ == workload_token@,
    {
        ChallengeCall {
            base_url: self.base_url(),
            pod_uid: pod_uid.to_owned(),
            workload_token: workload_token.to_owned(),
        }
    }

    /// The call that enrolls this process: its proof binds `challenge` to the
    /// credential that goes on to sign every other call.
    pub fn enroll(
        &self,
        challenge: [u8; CHALLENGE_LENGTH],
        endpoint: &str,
        pod_uid: &str,
        workload_token: String,
    ) -> (call: EnrollmentCall)
        ensures
            call.base_url@ == https_url(self.authority@),
            call.challenge == challenge,
            call.endpoint@ == endpoint@,
            call.pod_uid@ == pod_uid@,
            call.workload_token == workload_token,
    {
        EnrollmentCall {
            base_url: self.base_url(),
            challenge,
            endpoint: endpoint.to_owned(),
            pod_uid: pod_uid.to_owned(),
            workload_token,
        }
    }

    /// The call that extends this instance's lease, under a fresh request
    /// identifier. `expected_revision` is the one the kernel granted last; it
    /// refuses any other.
    pub fn renew_lease(&self, expected_revision: i64, now: i64) -> (order: SigningOrder)
        requires
            now + SIGNATURE_VALIDITY_SECONDS <= i64::MAX,
        ensures
            order.orders(
                renewal_parts(self.authority@, expected_revision, order.parts.request_id),
                now,
            ),
            crate::identity::is_random_uuid(order.parts.request_id),
            crate::identity::is_fresh_request_id(order.parts.request_id),
    {
        build_renewal_request(self.authority.as_str(), expected_revision, new_request_id(), now)
    }

    /// The call that lists the routes this service may claim, under a fresh
    /// request identifier.
    pub fn eligible_routes(&self, now: i64) -> (order: SigningOrder)
        requires
            now + SIGNATURE_VALIDITY_SECONDS <= i64::MAX,
        ensures
            order.orders(eligible_routes_parts(self.authority@, order.parts.request_id), now),
            crate::identity::is_random_uuid(order.parts.request_id),
            crate::identity::is_fresh_request_id(order.parts.request_id),
    {
        build_eligible_routes_request(self.authority.as_str(), new_request_id(), now)
    }

    /// The call that proposes a claim on `route_id`, under a fresh request
    /// identifier.
    pub fn propose_claim(&self, route_id: &str, lease_seconds: i64, now: i64) -> (order:
        SigningOrder)
        requires
            now + SIGNATURE_VALIDITY_SECONDS <= i64::MAX,
        ensures
            order.orders(
                claim_parts(self.authority@, route_id@, lease_seconds, order.parts.request_id),
                now,
            ),
            crate::identity::is_random_uuid(order.parts.request_id),
            crate::identity::is_fresh_request_id(order.parts.request_id),
    {
        build_claim_request(
            self.authority.as_str(),
            route_id,
            lease_seconds,
            new_request_id(),
            now,
        )
    }
}

/// Two claim calls go to the same path only where they are for the same
/// route.
pub proof fn claim_path_names_its_route(a: Seq<char>, b: Seq<char>)
    requires
        claim_path(a) == claim_path(b),
    ensures
        a == b,
{
    let head = "/v1/routes/"@;
    let tail = "/claims"@;
    let (left, right) = (claim_path(a), claim_path(b));
    assert(left.len() == head.len() + a.len() + tail.len());
    assert(right.len() == head.len() + b.len() + tail.len());
    let end = (head.len() + a.len()) as int;
    assert(left.subrange(head.len() as int, end) == a);
    assert(right.subrange(head.len() as int, end) == b);
}

/// Two claim calls are the same only where they propose the same lease on the
/// same route to the same kernel.
pub proof fn claim_call_determines_its_proposal(
    a: (Seq<char>, Seq<char>, i64, u128),
    b: (Seq<char>, Seq<char>, i64, u128),
)
    requires
        claim_parts(a.0, a.1, a.2, a.3) == claim_parts(b.0, b.1, b.2, b.3),
    ensures
        a == b,
{
    claim_path_names_its_route(a.1, b.1);
    crate::claims::claim_body_carries_its_lease(a.2, b.2);
}

/// `body` is a JSON object with one member: `head` is all that stands before
/// its value, a closing brace all that stands after, and the text between is
/// the shortest that reads back as `value`.
pub open spec fn is_one_member_object(body: Seq<u8>, head: Seq<u8>, value: i64) -> bool {
    let tail = encode_utf8("}"@);
    let end = body.len() - tail.len();
    let text = as_text(body.subrange(head.len() as int, end));
    &&& head.len() <= end
    &&& body.subrange(0, head.len() as int) == head
    &&& body.subrange(end, body.len() as int) == tail
    &&& i64_value(text) == Some(value)
    &&& is_plain(text)
}

/// A listing is a `GET` of the eligible routes, without a body, as a JSON
/// call to the given kernel under the given identifier, signed now and good
/// for half a minute.
pub proof fn listing_call_is_a_bodiless_get(
    authority: &str,
    request_id: u128,
    now: i64,
    order: SigningOrder,
)
    requires
        call_ensures(build_eligible_routes_request, (authority, request_id, now), order),
    ensures
        order.parts.content_type@ == "application/json"@,
        order.parts.method@ == "GET"@,
        order.parts.path_and_query@ == "/v1/routes/eligible"@,
        order.parts.body@.len() == 0,
        order.parts.authority@ == authority@,
        order.parts.request_id == request_id,
        order.created_at == now,
        order.expires_at - order.created_at == 30,
{
}

/// A proposal is a `POST` to the claims of the route it names, as a JSON call
/// that carries the lease, signed now and good for half a minute.
pub proof fn claim_call_posts_the_lease_to_its_route(
    authority: &str,
    route_id: &str,
    lease_seconds: i64,
    request_id: u128,
    now: i64,
    order: SigningOrder,
)
    requires
        call_ensures(
            build_claim_request,
            (authority, route_id, lease_seconds, request_id, now),
            order,
        ),
    ensures
        order.parts.content_type@ == "application/json"@,
        order.parts.method@ == "POST"@,
        order.parts.path_and_query@ == "/v1/routes/"@ + route_id@ + "/claims"@,
        is_one_member_object(
            order.parts.body@,
            encode_utf8("{\"lease_seconds\":"@),
            lease_seconds,
        ),
        order.parts.authority@ == authority@,
        order.parts.request_id == request_id,
        order.created_at == now,
        order.expires_at - order.created_at == 30,
{
    lemma_framed_decimal_reads_back(
        order.parts.body@,
        encode_utf8("{\"lease_seconds\":"@),
        lease_seconds,
        encode_utf8("}"@),
    );
}

/// A renewal is a `POST` to the instance's renewal, as a JSON call that
/// carries the revision, signed now and good for half a minute.
pub proof fn renewal_call_posts_the_revision(
    authority: &str,
    expected_revision: i64,
    request_id: u128,
    now: i64,
    order: SigningOrder,
)
    requires
        call_ensures(
            build_renewal_request,
            (authority, expected_revision, request_id, now),
            order,
        ),
    ensures
        order.parts.content_type@ == "application/json"@,
        order.parts.method@ == "POST"@,
        order.parts.path_and_query@ == "/v1/instances/renew"@,
        is_one_member_object(
            order.parts.body@,
            encode_utf8("{\"expected_revision\":"@),
            expected_revision,
        ),
        order.parts.authority@ == authority@,
        order.parts.request_id == request_id,
        order.created_at == now,
        order.expires_at - order.created_at == 30,
{
    lemma_framed_decimal_reads_back(
        order.parts.body@,
        encode_utf8("{\"expected_revision\":"@),
        expected_revision,
        encode_utf8("}"@),
    );
}

/// Signing leaves the call as it is and lets it stand for half a minute.
pub proof fn signature_covers_the_call_for_half_a_minute(
    parts: RequestParts,
    now: i64,
    order: SigningOrder,
)
    requires
        call_ensures(sign, (parts, now), order),
    ensures
        order.parts == parts,
        order.created_at == now,
        order.expires_at - order.created_at == 30,
{
}

/// Every call of a client goes to that client's own kernel as a JSON call
/// under a drawn identifier, and says what it was asked to say: a listing is a
/// bodiless `GET` of the eligible routes, a proposal posts its lease to its
/// route, a renewal posts its revision.
pub proof fn client_calls_say_what_was_asked(
    client: &KernelClient,
    route_id: &str,
    lease_seconds: i64,
    expected_revision: i64,
    now: i64,
    listing: SigningOrder,
    proposal: SigningOrder,
    renewal: SigningOrder,
)
    requires
        call_ensures(KernelClient::eligible_routes, (client, now), listing),
        call_ensures(KernelClient::propose_claim, (client, route_id, lease_seconds, now), proposal),
        call_ensures(KernelClient::renew_lease, (client, expected_revision, now), renewal),
    ensures
        listing.parts.content_type@ == "application/json"@,
        listing.parts.authority@ == client.authority@,
        listing.created_at == now,
        listing.expires_at - listing.created_at == 30,
        proposal.parts.content_type@ == "application/json"@,
        proposal.parts.authority@ == client.authority@,
        proposal.created_at == now,
        proposal.expires_at - proposal.created_at == 30,
        renewal.parts.content_type@ == "application/json"@,
        renewal.parts.authority@ == client.authority@,
        renewal.created_at == now,
        renewal.expires_at - renewal.created_at == 30,
        crate::identity::is_fresh_request_id(listing.parts.request_id),
        crate::identity::is_fresh_request_id(proposal.parts.request_id),
        crate::identity::is_fresh_request_id(renewal.parts.request_id),
        listing.parts.method@ == "GET"@,
        listing.parts.path_and_query@ == "/v1/routes/eligible"@,
        listing.parts.body@.len() == 0,
        proposal.parts.method@ == "POST"@,
        proposal.parts.path_and_query@ == "/v1/routes/"@ + route_id@ + "/claims"@,
        is_one_member_object(
            proposal.parts.body@,
            encode_utf8("{\"lease_seconds\":"@),
            lease_seconds,
        ),
        renewal.parts.method@ == "POST"@,
        renewal.parts.path_and_query@ == "/v1/instances/renew"@,
        is_one_member_object(
            renewal.parts.body@,
            encode_utf8("{\"expected_revision\":"@),
            expected_revision,
        ),
{
    lemma_framed_decimal_reads_back(
        proposal.parts.body@,
        encode_utf8("{\"lease_seconds\":"@),
        lease_seconds,
        encode_utf8("}"@),
    );
    lemma_framed_decimal_reads_back(
        renewal.parts.body@,
        encode_utf8("{\"expected_revision\":"@),
        expected_revision,
        encode_utf8("}"@),
    );
}

/// A client is who it was made for: it keeps the identity, the kernel and the
/// certificate authority it was given, and trusts no other.
pub proof fn client_keeps_what_it_was_made_with(
    service_id: u128,
    authority: String,
    pem: Vec<u8>,
    plain: KernelClient,
    trusting: KernelClient,
)
    requires
        call_ensures(KernelClient::new, (service_id, authority), plain),
        call_ensures(
            KernelClient::with_extra_root_certificate,
            (service_id, authority, pem),
            trusting,
        ),
    ensures
        plain.service_id == service_id && trusting.service_id == service_id,
        plain.authority == authority && trusting.authority == authority,
        plain.extra_root_certificate_pem is None,
        trusting.extra_root_certificate_pem == Some(pem),
{
}

/// Enrollment goes to the client's own kernel, over HTTPS and nothing else,
/// and carries what it was given, each in its place.
pub proof fn enrollment_goes_to_the_own_kernel_over_https(
    client: &KernelClient,
    challenge: [u8; CHALLENGE_LENGTH],
    endpoint: &str,
    pod_uid: &str,
    workload_token: String,
    asked_token: &str,
    url: String,
    enrollment: EnrollmentCall,
    asked: ChallengeCall,
)
    requires
        call_ensures(KernelClient::base_url, (client,), url),
        call_ensures(
            KernelClient::enroll,
            (client, challenge, endpoint, pod_uid, workload_token),
            enrollment,
        ),
        call_ensures(KernelClient::request_challenge, (client, pod_uid, asked_token), asked),
    ensures
        url@ == "https://"@ + client.authority@,
        enrollment.base_url@ == "https://"@ + client.authority@,
        enrollment.challenge@ == challenge@,
        enrollment.endpoint@ == endpoint@,
        enrollment.pod_uid@ == pod_uid@,
        enrollment.workload_token@ == workload_token@,
        asked.base_url@ == "https://"@ + client.authority@,
        asked.pod_uid@ == pod_uid@,
        asked.workload_token@ == asked_token@,
{
}

} // verus!
