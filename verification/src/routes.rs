//! The kernel's eligible-route listing.

use vstd::prelude::*;

use crate::error::TaskmasterError;

verus! {

/// Where the kernel lists the routes this service may claim.
pub const ELIGIBLE_ROUTES_PATH: &'static str = "/v1/routes/eligible";

/// A route assigned to this service that has no live claim.
#[derive(Clone, Debug, Eq, PartialEq)]
pub struct EligibleRoute {
    pub route_id: String,
    pub request_id: String,
    pub subscription_id: String,
    pub destination_service_id: String,
    pub created_at: i64,
}

/// What a `200` answer means, given what its body decodes to.
pub open spec fn listing(decoded: Result<Vec<EligibleRoute>, String>) -> Result<
    Vec<EligibleRoute>,
    TaskmasterError,
> {
    match decoded {
        Ok(routes) => Ok(routes),
        Err(message) => Err(TaskmasterError::MalformedResponse(message)),
    }
}

/// Reads the kernel's answer to a listing request. `decode` reads the routes
/// out of a JSON body, in the order they stand there, or says why it cannot;
/// it is asked about `body`, and only where the kernel reports success.
pub fn parse_eligible_routes<D: FnOnce(&[u8]) -> Result<Vec<EligibleRoute>, String>>(
    status: u16,
    body: &[u8],
    decode: D,
) -> (routes: Result<Vec<EligibleRoute>, TaskmasterError>)
    requires
        status == 200 ==> call_requires(decode, (body,)),
    ensures
        status == 200 ==> exists|decoded: Result<Vec<EligibleRoute>, String>| #[trigger]
            call_ensures(decode, (body,), decoded) && routes == listing(decoded),
        status != 200 ==> routes == Err::<Vec<EligibleRoute>, TaskmasterError>(
            TaskmasterError::UnexpectedStatus(status),
        ),
{
    if status != 200 {
        return Err(TaskmasterError::UnexpectedStatus(status));
    }
    match decode(body) {
        Ok(routes) => Ok(routes),
        Err(message) => Err(TaskmasterError::MalformedResponse(message)),
    }
}

/// A listing is passed on as the kernel sent it: however many routes the body
/// of a `200` answer decodes to, one or none included, they come back, the
/// same ones in the same order. A body that does not decode is an error with
/// the decoder's own message, and the only error there is.
pub proof fn listing_is_passed_on_whole<
    D: FnOnce(&[u8]) -> Result<Vec<EligibleRoute>, String>,
>(body: &[u8], decode: D, routes: Result<Vec<EligibleRoute>, TaskmasterError>)
    requires
        call_ensures(parse_eligible_routes::<D>, (200u16, body, decode), routes),
    ensures
        exists|decoded: Result<Vec<EligibleRoute>, String>|
            {
                &&& #[trigger] call_ensures(decode, (body,), decoded)
                &&& routes is Ok <==> decoded is Ok
                &&& decoded matches Ok(sent) ==> {
                    &&& routes->Ok_0@.len() == sent@.len()
                    &&& forall|i: int|
                        0 <= i < sent@.len() ==> #[trigger] routes->Ok_0@[i] == sent@[i]
                }
                &&& decoded matches Err(message) ==> routes matches Err(
                    TaskmasterError::MalformedResponse(reason),
                ) && reason == message
            },
{
}

/// Without a `200` there is no listing, whatever the body and the decoder:
/// the status alone is the error.
pub proof fn no_listing_without_success<
    D: FnOnce(&[u8]) -> Result<Vec<EligibleRoute>, String>,
>(status: u16, body: &[u8], decode: D, routes: Result<Vec<EligibleRoute>, TaskmasterError>)
    requires
        status != 200,
        call_ensures(parse_eligible_routes::<D>, (status, body, decode), routes),
    ensures
        routes matches Err(TaskmasterError::UnexpectedStatus(named)) && named == status,
{
}

} // verus!
