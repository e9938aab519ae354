//! This process's own registration lease with the kernel: when it is due for
//! renewal, what a renewal says, and what its answer changes.

use vstd::prelude::*;
use vstd::utf8::encode_utf8;

use crate::error::TaskmasterError;
use crate::numbers::{
    as_text, closed_object, decimal, i64_value, is_plain, lemma_framed_decimal,
    lemma_framed_decimal_reads_back,
};

verus! {

/// Where the kernel takes renewals.
pub const RENEW_INSTANCE_PATH: &'static str = "/v1/instances/renew";

/// How long before its expiry a lease is renewed.
pub const RENEWAL_MARGIN_SECONDS: i64 = 20;

/// The lease as of the last enrollment or renewal.
#[derive(Clone, Copy, Debug)]
pub struct InstanceLease {
    pub revision: i64,
    pub expires_at: i64,
}

/// What the kernel says of a lease it has just extended.
#[derive(Clone, Copy, Debug, Eq, PartialEq)]
pub struct RenewedLease {
    pub lease_revision: i64,
    pub lease_expires_at: i64,
}

/// `{"expected_revision":N}`, with `N` in decimal.
pub open spec fn renewal_body(expected_revision: i64) -> Seq<u8> {
    encode_utf8("{\"expected_revision\":"@) + decimal(expected_revision as int) + encode_utf8("}"@)
}

/// The renewal as the kernel reads it: compact JSON.
pub fn renewal_request_body(expected_revision: i64) -> (body: Vec<u8>)
    ensures
        body@ == renewal_body(expected_revision),
{
    closed_object("{\"expected_revision\":", expected_revision)
}

/// What a `200` answer means, given what its body decodes to.
pub open spec fn renewal(decoded: Result<RenewedLease, String>) -> Result<
    RenewedLease,
    TaskmasterError,
> {
    match decoded {
        Ok(renewed) => Ok(renewed),
        Err(message) => Err(TaskmasterError::MalformedResponse(message)),
    }
}

/// Reads the kernel's answer to a renewal. `decode` reads the renewed lease
/// out of a JSON body or says why it cannot; it is asked about `body`, and
/// only where the kernel reports success.
pub fn parse_renewal_response<D: FnOnce(&[u8]) -> Result<RenewedLease, String>>(
    status: u16,
    body: &[u8],
    decode: D,
) -> (renewed: Result<RenewedLease, TaskmasterError>)
    requires
        status == 200 ==> call_requires(decode, (body,)),
    ensures
        status == 200 ==> exists|decoded: Result<RenewedLease, String>| #[trigger]
            call_ensures(decode, (body,), decoded) && renewed == renewal(decoded),
        status != 200 ==> renewed == Err::<RenewedLease, TaskmasterError>(
            TaskmasterError::UnexpectedStatus(status),
        ),
{
    if status != 200 {
        return Err(TaskmasterError::UnexpectedStatus(status));
    }
    match decode(body) {
        Ok(renewed) => Ok(renewed),
        Err(message) => Err(TaskmasterError::MalformedResponse(message)),
    }
}

/// Whether `lease` has come within the margin of its expiry, or past it.
pub open spec fn is_due(lease: InstanceLease, now: i64) -> bool {
    now >= lease.expires_at - RENEWAL_MARGIN_SECONDS
}

/// The revision to renew with at `now`; none where no lease is held or
/// the held one is not due.
pub open spec fn due_revision(held: Option<InstanceLease>, now: i64) -> Option<i64> {
    match held {
        Some(lease) if is_due(lease, now) => Some(lease.revision),
        _ => None,
    }
}

/// The held lease once a renewal has been answered: what the kernel
/// granted, and unchanged where it granted nothing.
pub open spec fn after_renewal(
    held: Option<InstanceLease>,
    answer: Result<RenewedLease, TaskmasterError>,
) -> Option<InstanceLease> {
    match (held, answer) {
        (Some(_), Ok(renewed)) => Some(
            InstanceLease {
                revision: renewed.lease_revision,
                expires_at: renewed.lease_expires_at,
            },
        ),
        _ => held,
    }
}

/// Decides whether to renew at `now`, and with which revision. A lease whose
/// expiry is so early that the margin before it cannot be counted is left
/// out.
pub fn renewal_due(held: &Option<InstanceLease>, now: i64) -> (revision: Option<i64>)
    requires
        held matches Some(lease) ==> i64::MIN <= lease.expires_at - RENEWAL_MARGIN_SECONDS,
    ensures
        revision == due_revision(*held, now),
{
    match held {
        Some(lease) => if now < lease.expires_at - RENEWAL_MARGIN_SECONDS {
            None
        } else {
            Some(lease.revision)
        },
        None => None,
    }
}

/// Takes over what the kernel granted. A failed renewal changes nothing.
pub fn record_renewal(
    held: &mut Option<InstanceLease>,
    answer: &Result<RenewedLease, TaskmasterError>,
)
    ensures
        *final(held) == after_renewal(*old(held), *answer),
        answer is Err ==> *final(held) == *old(held),
        *old(held) is None ==> *final(held) is None,
        *old(held) is Some && *answer is Ok ==> {
            &&& *final(held) matches Some(lease)
            &&& lease.revision == answer->Ok_0.lease_revision
            &&& lease.expires_at == answer->Ok_0.lease_expires_at
        },
{
    if let (Some(_), Ok(renewed)) = (&*held, answer) {
        *held =
        Some(
            InstanceLease {
                revision: renewed.lease_revision,
                expires_at: renewed.lease_expires_at,
            },
        );
    }
}

/// A renewal is passed on as the kernel sent it: the revision and the expiry
/// that the body of a `200` answer decodes to come back, both unchanged. A
/// body that does not decode is an error with the decoder's own message.
pub proof fn renewal_is_passed_on_whole<D: FnOnce(&[u8]) -> Result<RenewedLease, String>>(
    body: &[u8],
    decode: D,
    renewed: Result<RenewedLease, TaskmasterError>,
)
    requires
        call_ensures(parse_renewal_response::<D>, (200u16, body, decode), renewed),
    ensures
        exists|decoded: Result<RenewedLease, String>|
            {
                &&& #[trigger] call_ensures(decode, (body,), decoded)
                &&& decoded matches Ok(sent) ==> {
                    &&& renewed matches Ok(lease)
                    &&& lease.lease_revision == sent.lease_revision
                    &&& lease.lease_expires_at == sent.lease_expires_at
                }
                &&& decoded matches Err(message) ==> renewed matches Err(
                    TaskmasterError::MalformedResponse(reason),
                ) && reason == message
            },
{
}

/// Without a `200` nothing is renewed, whatever the body and the decoder: the
/// status alone is the error.
pub proof fn no_renewal_without_success<D: FnOnce(&[u8]) -> Result<RenewedLease, String>>(
    status: u16,
    body: &[u8],
    decode: D,
    renewed: Result<RenewedLease, TaskmasterError>,
)
    requires
        status != 200,
        call_ensures(parse_renewal_response::<D>, (status, body, decode), renewed),
    ensures
        renewed matches Err(TaskmasterError::UnexpectedStatus(named)) && named == status,
{
}

/// From one answer to the next request: the revision that a `200` answer
/// decodes to is held once it is recorded, and it is what the next renewal
/// quotes, as soon as the expiry in that same answer is twenty seconds away
/// or less, and not before.
pub proof fn decoded_renewal_is_quoted_next<D: FnOnce(&[u8]) -> Result<RenewedLease, String>>(
    held: InstanceLease,
    body: &[u8],
    decode: D,
    renewed: Result<RenewedLease, TaskmasterError>,
    now: i64,
    quoted: Option<i64>,
)
    requires
        call_ensures(parse_renewal_response::<D>, (200u16, body, decode), renewed),
        call_ensures(renewal_due, (&after_renewal(Some(held), renewed), now), quoted),
    ensures
        exists|decoded: Result<RenewedLease, String>|
            {
                &&& #[trigger] call_ensures(decode, (body,), decoded)
                &&& decoded matches Ok(sent) ==> {
                    if sent.lease_expires_at - now <= 20 {
                        quoted == Some(sent.lease_revision)
                    } else {
                        quoted is None
                    }
                }
                &&& decoded is Err ==> {
                    if held.expires_at - now <= 20 {
                        quoted == Some(held.revision)
                    } else {
                        quoted is None
                    }
                }
            },
{
}

/// A lease is renewed from twenty seconds before its expiry on, with the
/// revision it has; without a lease nothing is renewed.
pub proof fn due_lease_is_renewed_with_its_revision(
    held: &Option<InstanceLease>,
    now: i64,
    revision: Option<i64>,
)
    requires
        call_ensures(renewal_due, (held, now), revision),
    ensures
        revision is Some <==> (held matches Some(lease) && lease.expires_at - now <= 20),
        revision matches Some(quoted) ==> held matches Some(lease) && quoted == lease.revision,
{
}

/// Recording an answer: a grant replaces the revision and the expiry of the
/// held lease by its own, a failure leaves both alone, and where no lease is
/// held, none is taken up.
pub proof fn recording_takes_over_the_grant(
    held: &mut Option<InstanceLease>,
    answer: &Result<RenewedLease, TaskmasterError>,
)
    requires
        call_ensures(record_renewal, (held, answer), ()),
    ensures
        *final(held) is Some <==> *old(held) is Some,
        *answer is Err ==> *final(held) == *old(held),
        *old(held) is Some && *answer is Ok ==> {
            &&& final(held)->0.revision == answer->Ok_0.lease_revision
            &&& final(held)->0.expires_at == answer->Ok_0.lease_expires_at
        },
{
}

/// What a recorded answer leaves held. A grant replaces revision and expiry
/// by its own; a failure leaves both alone; where no lease is held, none ever
/// is.
pub proof fn recorded_answer_is_what_is_held(
    held: Option<InstanceLease>,
    answer: Result<RenewedLease, TaskmasterError>,
)
    ensures
        after_renewal(held, answer) is Some <==> held is Some,
        held is Some && answer is Ok ==> {
            &&& after_renewal(held, answer)->0.revision == answer->Ok_0.lease_revision
            &&& after_renewal(held, answer)->0.expires_at == answer->Ok_0.lease_expires_at
        },
        answer is Err ==> after_renewal(held, answer) == held,
{
}

/// The body of a renewal is an object with one member, `expected_revision`,
/// and the text of its value is the shortest that reads back as the revision.
pub proof fn renewal_reads_back(expected_revision: i64, body: Vec<u8>)
    requires
        call_ensures(renewal_request_body, (expected_revision,), body),
    ensures
        ({
            let head = encode_utf8("{\"expected_revision\":"@);
            let tail = encode_utf8("}"@);
            let end = body@.len() - tail.len();
            let value = as_text(body@.subrange(head.len() as int, end));
            &&& head.len() <= end
            &&& body@.subrange(0, head.len() as int) == head
            &&& body@.subrange(end, body@.len() as int) == tail
            &&& i64_value(value) == Some(expected_revision)
            &&& is_plain(value)
        }),
{
    lemma_framed_decimal_reads_back(
        body@,
        encode_utf8("{\"expected_revision\":"@),
        expected_revision,
        encode_utf8("}"@),
    );
}

/// A lease that was due and could not be renewed is due at every later
/// moment too, with the same revision.
pub proof fn failed_renewal_is_retried(
    held: Option<InstanceLease>,
    error: TaskmasterError,
    now: i64,
    later: i64,
)
    requires
        due_revision(held, now) is Some,
        now <= later,
    ensures
        due_revision(
            after_renewal(held, Err::<RenewedLease, TaskmasterError>(error)),
            later,
        ) == due_revision(held, now),
{
}

/// After a successful renewal, the next one quotes the revision that the
/// kernel granted last, and not before the new expiry comes within the
/// margin.
pub proof fn next_renewal_quotes_the_last_grant(
    held: Option<InstanceLease>,
    renewed: RenewedLease,
    later: i64,
)
    requires
        held is Some,
    ensures
        due_revision(
            after_renewal(held, Ok::<RenewedLease, TaskmasterError>(renewed)),
            later,
        ) == if later >= renewed.lease_expires_at - RENEWAL_MARGIN_SECONDS {
            Some(renewed.lease_revision)
        } else {
            None::<i64>
        },
{
}

/// Every moment within the margin before expiry, and every moment after it,
/// calls for a renewal; none before does.
pub proof fn renewal_starts_a_margin_before_expiry(lease: InstanceLease, now: i64)
    ensures
        due_revision(Some(lease), now) is Some <==> lease.expires_at - now
            <= RENEWAL_MARGIN_SECONDS,
{
}

/// A process that tracks no lease never renews, whatever it is told.
pub proof fn untracked_lease_is_never_renewed(
    answer: Result<RenewedLease, TaskmasterError>,
    now: i64,
)
    ensures
        due_revision(None, now) is None,
        after_renewal(None, answer) is None,
{
}

/// Two renewals have the same body only where they expect the same revision.
pub proof fn renewal_body_carries_its_revision(a: i64, b: i64)
    requires
        renewal_body(a) == renewal_body(b),
    ensures
        a == b,
{
    lemma_framed_decimal(
        encode_utf8("{\"expected_revision\":"@),
        a as int,
        b as int,
        encode_utf8("}"@),
    );
}

} // verus!
