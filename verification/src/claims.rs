//! The kernel's work-claim wire format, for the one operation this scheduler
//! performs -- proposing a claim -- and the meaning of every answer the
//! kernel's atomic claim arbitration can give.

use vstd::prelude::*;
use vstd::utf8::encode_utf8;

use crate::error::TaskmasterError;
use crate::numbers::{
    as_text, closed_object, decimal, i64_value, is_plain, lemma_framed_decimal,
    lemma_framed_decimal_reads_back,
};

verus! {

/// The body of a claim proposal.
pub struct ClaimRequest {
    pub lease_seconds: i64,
}

/// `{"lease_seconds":N}`, with `N` in decimal.
pub open spec fn claim_body(lease_seconds: i64) -> Seq<u8> {
    encode_utf8("{\"lease_seconds\":"@) + decimal(lease_seconds as int) + encode_utf8("}"@)
}

impl ClaimRequest {
    /// The proposal as the kernel reads it: compact JSON.
    pub fn to_body(&self) -> (body: Vec<u8>)
        ensures
            body@ == claim_body(self.lease_seconds),
    {
        closed_object("{\"lease_seconds\":", self.lease_seconds)
    }
}

/// A claim the kernel has granted.
#[derive(Clone, Debug, Eq, PartialEq)]
pub struct WorkClaim {
    pub claim_id: String,
    pub route_id: String,
    pub worker_service_id: String,
    pub worker_instance_id: String,
    pub fencing_token: i64,
    pub status: String,
    pub claimed_at: i64,
    pub lease_expires_at: i64,
}

/// What the kernel's arbitration can make of a proposal. `AlreadyClaimed` and
/// `RouteNotFound` are not failures of this scheduler: they are the kernel
/// rightly refusing a proposal that lost a race or named a route this service
/// does not own.
#[derive(Clone, Debug, Eq, PartialEq)]
pub enum ClaimOutcome {
    Claimed(WorkClaim),
    AlreadyClaimed,
    RouteNotFound,
}

/// What a `201` answer means, given what its body decodes to.
pub open spec fn granted(decoded: Result<WorkClaim, String>) -> Result<
    ClaimOutcome,
    TaskmasterError,
> {
    match decoded {
        Ok(claim) => Ok(ClaimOutcome::Claimed(claim)),
        Err(message) => Err(TaskmasterError::MalformedResponse(message)),
    }
}

/// What an answer other than `201` means. Its body plays no part.
pub open spec fn not_granted(status: u16) -> Result<ClaimOutcome, TaskmasterError> {
    if status == 409 {
        Ok(ClaimOutcome::AlreadyClaimed)
    } else if status == 404 {
        Ok(ClaimOutcome::RouteNotFound)
    } else {
        Err(TaskmasterError::UnexpectedStatus(status))
    }
}

/// Classifies a `201` answer by what its body decoded to.
pub fn claim_granted(decoded: Result<WorkClaim, String>) -> (outcome: Result<
    ClaimOutcome,
    TaskmasterError,
>)
    ensures
        outcome == granted(decoded),
{
    match decoded {
        Ok(claim) => Ok(ClaimOutcome::Claimed(claim)),
        Err(message) => Err(TaskmasterError::MalformedResponse(message)),
    }
}

/// Classifies the kernel's answer to a proposal. `decode` reads a claim out
/// of a JSON body or says why it cannot; it is asked about `body`, and only
/// where the kernel reports a grant.
pub fn parse_claim_response<D: FnOnce(&[u8]) -> Result<WorkClaim, String>>(
    status: u16,
    body: &[u8],
    decode: D,
) -> (outcome: Result<ClaimOutcome, TaskmasterError>)
    requires
        status == 201 ==> call_requires(decode, (body,)),
    ensures
        status == 201 ==> exists|decoded: Result<WorkClaim, String>| #[trigger]
            call_ensures(decode, (body,), decoded) && outcome == granted(decoded),
        status != 201 ==> outcome == not_granted(status),
{
    match status {
        201 => claim_granted(decode(body)),
        409 => Ok(ClaimOutcome::AlreadyClaimed),
        404 => Ok(ClaimOutcome::RouteNotFound),
        other => Err(TaskmasterError::UnexpectedStatus(other)),
    }
}

/// A grant is passed on as the kernel sent it: the claim that the body of a
/// `201` answer decodes to comes back whole, its fencing token and every other
/// field included. A body that does not decode is an error with the decoder's
/// own message, and never a claim.
pub proof fn grant_is_passed_on_whole<D: FnOnce(&[u8]) -> Result<WorkClaim, String>>(
    body: &[u8],
    decode: D,
    outcome: Result<ClaimOutcome, TaskmasterError>,
)
    requires
        call_ensures(parse_claim_response::<D>, (201u16, body, decode), outcome),
    ensures
        exists|decoded: Result<WorkClaim, String>|
            {
                &&& #[trigger] call_ensures(decode, (body,), decoded)
                &&& decoded matches Ok(claim) ==> {
                    &&& outcome matches Ok(ClaimOutcome::Claimed(held))
                    &&& held.claim_id == claim.claim_id
                    &&& held.route_id == claim.route_id
                    &&& held.worker_service_id == claim.worker_service_id
                    &&& held.worker_instance_id == claim.worker_instance_id
                    &&& held.fencing_token == claim.fencing_token
                    &&& held.status == claim.status
                    &&& held.claimed_at == claim.claimed_at
                    &&& held.lease_expires_at == claim.lease_expires_at
                }
                &&& decoded matches Err(message) ==> outcome matches Err(
                    TaskmasterError::MalformedResponse(reason),
                ) && reason == message
            },
{
}

/// The same of a grant whose body is already decoded.
pub proof fn decoded_grant_is_passed_on_whole(
    decoded: Result<WorkClaim, String>,
    outcome: Result<ClaimOutcome, TaskmasterError>,
)
    requires
        call_ensures(claim_granted, (decoded,), outcome),
    ensures
        decoded matches Ok(claim) ==> outcome == Ok::<ClaimOutcome, TaskmasterError>(
            ClaimOutcome::Claimed(claim),
        ),
        decoded matches Err(message) ==> outcome == Err::<ClaimOutcome, TaskmasterError>(
            TaskmasterError::MalformedResponse(message),
        ),
{
}

/// Without a grant the status alone decides, whatever the body and the
/// decoder: `409` is a lost race, `404` an unowned route, and every other
/// status an error that names it.
pub proof fn status_alone_decides_a_refusal<D: FnOnce(&[u8]) -> Result<WorkClaim, String>>(
    status: u16,
    body: &[u8],
    decode: D,
    outcome: Result<ClaimOutcome, TaskmasterError>,
)
    requires
        status != 201,
        call_ensures(parse_claim_response::<D>, (status, body, decode), outcome),
    ensures
        outcome matches Ok(ClaimOutcome::AlreadyClaimed) <==> status == 409,
        outcome matches Ok(ClaimOutcome::RouteNotFound) <==> status == 404,
        !(outcome matches Ok(ClaimOutcome::Claimed(_))),
        outcome matches Err(error) ==> error == TaskmasterError::UnexpectedStatus(status),
{
}

/// No answer but `201` ever counts as a granted claim.
pub proof fn only_a_grant_claims(status: u16)
    requires
        status != 201,
    ensures
        !(not_granted(status) matches Ok(ClaimOutcome::Claimed(_))),
{
}

/// A lost race and an unowned route are outcomes; every other answer that is
/// not a grant is an error that names its status.
pub proof fn refusals_are_outcomes(status: u16)
    requires
        status != 201,
    ensures
        not_granted(status) is Ok <==> status == 409 || status == 404,
        not_granted(status) is Err ==> not_granted(status)->Err_0
            == TaskmasterError::UnexpectedStatus(status),
{
}

/// The body of a proposal is an object with one member, `lease_seconds`, and
/// the text of its value is the shortest that reads back as the lease.
pub proof fn proposal_reads_back(request: &ClaimRequest, body: Vec<u8>)
    requires
        call_ensures(ClaimRequest::to_body, (request,), body),
    ensures
        ({
            let head = encode_utf8("{\"lease_seconds\":"@);
            let tail = encode_utf8("}"@);
            let end = body@.len() - tail.len();
            let value = as_text(body@.subrange(head.len() as int, end));
            &&& head.len() <= end
            &&& body@.subrange(0, head.len() as int) == head
            &&& body@.subrange(end, body@.len() as int) == tail
            &&& i64_value(value) == Some(request.lease_seconds)
            &&& is_plain(value)
        }),
{
    lemma_framed_decimal_reads_back(
        body@,
        encode_utf8("{\"lease_seconds\":"@),
        request.lease_seconds,
        encode_utf8("}"@),
    );
}

/// Two proposals have the same body only where they ask for the same lease.
pub proof fn claim_body_carries_its_lease(a: i64, b: i64)
    requires
        claim_body(a) == claim_body(b),
    ensures
        a == b,
{
    lemma_framed_decimal(
        encode_utf8("{\"lease_seconds\":"@),
        a as int,
        b as int,
        encode_utf8("}"@),
    );
}

} // verus!
