//! The one scheduling policy of this service: plain FIFO over whatever the
//! kernel currently reports as eligible.

use vstd::prelude::*;

use crate::claims::ClaimOutcome;
use crate::error::TaskmasterError;
use crate::kernel_client::KernelPort;
use crate::routes::EligibleRoute;

verus! {

/// What one scheduling pass did.
#[derive(Debug)]
pub enum ScheduleOutcome {
    /// No eligible route existed to propose a claim for.
    NothingEligible,
    /// A claim was proposed for `route_id`; `outcome` is the kernel's
    /// arbitration.
    Proposed { route_id: String, outcome: ClaimOutcome },
}

/// What a pass reports once the kernel has answered its proposal.
pub open spec fn proposal_result(
    route: EligibleRoute,
    answer: Result<ClaimOutcome, TaskmasterError>,
) -> Result<ScheduleOutcome, TaskmasterError> {
    match answer {
        Ok(outcome) => Ok(ScheduleOutcome::Proposed { route_id: route.route_id, outcome }),
        Err(error) => Err(error),
    }
}

/// The kernel listed at least one route.
pub open spec fn lists_some(listed: Result<Vec<EligibleRoute>, TaskmasterError>) -> bool {
    listed is Ok && listed->Ok_0@.len() > 0
}

/// `result` is what is reported where the listing came back as `listed` and
/// the proposal of its first route as `answer`; there is an answer where there
/// is a first route, and only there.
pub open spec fn reports(
    listed: Result<Vec<EligibleRoute>, TaskmasterError>,
    answer: Option<Result<ClaimOutcome, TaskmasterError>>,
    result: Result<ScheduleOutcome, TaskmasterError>,
) -> bool {
    match answer {
        Some(answer) => {
            &&& lists_some(listed)
            &&& result == proposal_result(listed->Ok_0@[0], answer)
        },
        None => {
            &&& !lists_some(listed)
            &&& result == match listed {
                Ok(_) => Ok::<ScheduleOutcome, TaskmasterError>(ScheduleOutcome::NothingEligible),
                Err(error) => Err::<ScheduleOutcome, TaskmasterError>(error),
            }
        },
    }
}

/// One pass that lists by calling `list` and claims by calling `propose`:
/// `list` returned `listed`; where that holds a route, `propose` was called
/// with the first one's identifier and the given lease and returned `answer`;
/// and that makes `result`.
pub open spec fn passes_with<
    L: FnOnce() -> Result<Vec<EligibleRoute>, TaskmasterError>,
    F: FnOnce(&str, i64) -> Result<ClaimOutcome, TaskmasterError>,
>(
    list: L,
    propose: F,
    lease_seconds: i64,
    listed: Result<Vec<EligibleRoute>, TaskmasterError>,
    answer: Option<Result<ClaimOutcome, TaskmasterError>>,
    result: Result<ScheduleOutcome, TaskmasterError>,
) -> bool {
    &&& call_ensures(list, (), listed)
    &&& answer matches Some(given) ==> exists|proposed: &str|
        proposed@ == listed->Ok_0@[0].route_id@ && #[trigger] call_ensures(
            propose,
            (proposed, lease_seconds),
            given,
        )
    &&& reports(listed, answer, result)
}

/// `list` can be called, and `propose` with the first route of whatever it
/// returns and the given lease. Of no other call is anything asked.
pub open spec fn callable<
    L: FnOnce() -> Result<Vec<EligibleRoute>, TaskmasterError>,
    F: FnOnce(&str, i64) -> Result<ClaimOutcome, TaskmasterError>,
>(list: L, propose: F, lease_seconds: i64) -> bool {
    &&& call_requires(list, ())
    &&& forall|listed: Result<Vec<EligibleRoute>, TaskmasterError>, proposed: &str|
        #![trigger call_ensures(list, (), listed), call_requires(propose, (proposed, lease_seconds))]
        call_ensures(list, (), listed) && lists_some(listed) && proposed@
            == listed->Ok_0@[0].route_id@ ==> call_requires(propose, (proposed, lease_seconds))
}

/// `answer` is what `port` returned to the proposal of the route named
/// `route_id`, with the given lease.
pub open spec fn is_answer<P: KernelPort>(
    port: &P,
    route_id: Seq<char>,
    lease_seconds: i64,
    answer: Result<ClaimOutcome, TaskmasterError>,
) -> bool {
    exists|proposed: &str|
        proposed@ == route_id && #[trigger] call_ensures(
            P::propose_claim,
            (port, proposed, lease_seconds),
            answer,
        )
}

/// One pass over `port`: it was asked for the eligible routes and returned
/// `listed`; where that holds a route, the claim of the first was proposed
/// and `answer` came back; and that makes `result`.
pub open spec fn passes<P: KernelPort>(
    port: &P,
    lease_seconds: i64,
    listed: Result<Vec<EligibleRoute>, TaskmasterError>,
    answer: Option<Result<ClaimOutcome, TaskmasterError>>,
    result: Result<ScheduleOutcome, TaskmasterError>,
) -> bool {
    &&& call_ensures(P::eligible_routes, (port,), listed)
    &&& answer matches Some(given) ==> is_answer(
        port,
        listed->Ok_0@[0].route_id@,
        lease_seconds,
        given,
    )
    &&& reports(listed, answer, result)
}

/// `result` is what one pass over `port` leads to.
pub open spec fn is_pass<P: KernelPort>(
    port: &P,
    lease_seconds: i64,
    result: Result<ScheduleOutcome, TaskmasterError>,
) -> bool {
    exists|
        listed: Result<Vec<EligibleRoute>, TaskmasterError>,
        answer: Option<Result<ClaimOutcome, TaskmasterError>>,
    | #[trigger]
        passes(port, lease_seconds, listed, answer, result)
}

/// `port` gives leave to propose the first route of whatever it lists, with
/// the given lease. Where it lists nothing, or cannot list, no leave is asked.
pub open spec fn permits_first<P: KernelPort>(port: &P, lease_seconds: i64) -> bool {
    forall|listed: Result<Vec<EligibleRoute>, TaskmasterError>| #[trigger]
        call_ensures(P::eligible_routes, (port,), listed) ==> (lists_some(listed)
            ==> port.may_propose(listed->Ok_0@[0].route_id@, lease_seconds))
}

/// Takes the first route out of a listing.
pub fn first_route(routes: Vec<EligibleRoute>) -> (first: Option<EligibleRoute>)
    ensures
        first == if routes@.len() == 0 {
            None
        } else {
            Some(routes@[0])
        },
{
    let mut routes = routes;
    if routes.is_empty() {
        None
    } else {
        Some(routes.remove(0))
    }
}

/// Reports the kernel's answer to the proposal for `route`.
pub fn report_proposal(
    route: EligibleRoute,
    answer: Result<ClaimOutcome, TaskmasterError>,
) -> (result: Result<ScheduleOutcome, TaskmasterError>)
    ensures
        result == proposal_result(route, answer),
{
    match answer {
        Ok(outcome) => Ok(ScheduleOutcome::Proposed { route_id: route.route_id, outcome }),
        Err(error) => Err(error),
    }
}

/// One pass: lists the eligible routes with `list` and proposes a claim for
/// the first of them with `propose`.
///
/// Both are used up by being called, so the routes are listed once, and the
/// claim is proposed once or, where no route is listed, not at all: nothing
/// is tried a second time, and no answer goes unreported.
pub fn pass_with<
    L: FnOnce() -> Result<Vec<EligibleRoute>, TaskmasterError>,
    F: FnOnce(&str, i64) -> Result<ClaimOutcome, TaskmasterError>,
>(list: L, propose: F, lease_seconds: i64) -> (result: Result<ScheduleOutcome, TaskmasterError>)
    requires
        callable(list, propose, lease_seconds),
    ensures
        exists|
            listed: Result<Vec<EligibleRoute>, TaskmasterError>,
            answer: Option<Result<ClaimOutcome, TaskmasterError>>,
        | #[trigger]
            passes_with(list, propose, lease_seconds, listed, answer, result),
{
    let listed = list();
    let ghost seen = listed;
    let routes: Vec<EligibleRoute> = match listed {
        Ok(routes) => routes,
        Err(error) => {
            assert(passes_with(list, propose, lease_seconds, seen, None, Err(error)));
            return Err(error);
        },
    };
    match first_route(routes) {
        None => {
            let result = Ok(ScheduleOutcome::NothingEligible);
            assert(passes_with(list, propose, lease_seconds, seen, None, result));
            result
        },
        Some(route) => {
            let answer = propose(route.route_id.as_str(), lease_seconds);
            let result = report_proposal(route, answer);
            assert(passes_with(list, propose, lease_seconds, seen, Some(answer), result));
            result
        },
    }
}

/// Fetches the kernel's eligible routes and proposes a claim for the oldest
/// one, which the kernel lists first. A lost race is an outcome, not an
/// error; the kernel alone decides whether a proposal succeeds, and nothing
/// is reported as claimed before it says so.
///
/// The leave that a pass needs is all it uses: whatever else a port refuses,
/// a pass gets by without. So it proposes the first listed route with this
/// lease and nothing else, and nothing at all where no route is listed. A port
/// is shared, so this contract cannot count its calls; `pass_with`, which
/// makes them, can make each only once.
pub fn schedule_once<P: KernelPort>(port: &P, lease_seconds: i64) -> (result: Result<
    ScheduleOutcome,
    TaskmasterError,
>)
    requires
        permits_first(port, lease_seconds),
    ensures
        is_pass(port, lease_seconds, result),
{
    let list = || -> (listed: Result<Vec<EligibleRoute>, TaskmasterError>)
        ensures
            call_ensures(P::eligible_routes, (port,), listed),
        { port.eligible_routes() };
    let propose = |route_id: &str, lease: i64| -> (answer: Result<ClaimOutcome, TaskmasterError>)
        requires
            port.may_propose(route_id@, lease),
        ensures
            call_ensures(P::propose_claim, (port, route_id, lease), answer),
        { port.propose_claim(route_id, lease) };
    let result = pass_with(list, propose, lease_seconds);
    proof {
        let (listed, answer) = choose|
            listed: Result<Vec<EligibleRoute>, TaskmasterError>,
            answer: Option<Result<ClaimOutcome, TaskmasterError>>,
        | #[trigger]
            passes_with(list, propose, lease_seconds, listed, answer, result);
        assert(passes(port, lease_seconds, listed, answer, result));
    }
    result
}

/// `a` stands before `b` in dictionary order, or they are the same text.
pub open spec fn text_le(a: Seq<char>, b: Seq<char>) -> bool
    decreases a.len(),
{
    if a.len() == 0 {
        true
    } else if b.len() == 0 {
        false
    } else if a[0] != b[0] {
        a[0] < b[0]
    } else {
        text_le(a.drop_first(), b.drop_first())
    }
}

/// `a` was created before `b`; routes of one moment go by their identifiers.
pub open spec fn created_no_later(a: EligibleRoute, b: EligibleRoute) -> bool {
    ||| a.created_at < b.created_at
    ||| a.created_at == b.created_at && text_le(a.route_id@, b.route_id@)
}

/// The order in which the kernel lists routes.
pub open spec fn in_creation_order(routes: Seq<EligibleRoute>) -> bool {
    forall|i: int, j: int|
        0 <= i < j < routes.len() ==> created_no_later(#[trigger] routes[i], #[trigger] routes[j])
}

/// In a listing in creation order, the first route is the oldest of all.
pub proof fn first_route_is_the_oldest(routes: Seq<EligibleRoute>, i: int)
    requires
        in_creation_order(routes),
        0 <= i < routes.len(),
    ensures
        i == 0 || created_no_later(routes[0], routes[i]),
        routes[0].created_at <= routes[i].created_at,
{
}

/// No route of the listing stands before route `i` in creation order.
pub open spec fn is_oldest(routes: Seq<EligibleRoute>, i: int) -> bool {
    forall|j: int|
        0 <= j < routes.len() && j != i ==> created_no_later(routes[i], #[trigger] routes[j])
}

/// FIFO: over a kernel that lists routes in creation order, a pass needs
/// leave for nothing but the claim of an oldest route of a listing. A port
/// that refuses every other proposal still lets it through, so it never makes
/// one.
pub proof fn pass_proposes_only_the_oldest<P: KernelPort>(port: &P, lease_seconds: i64)
    requires
        forall|listed: Result<Vec<EligibleRoute>, TaskmasterError>| #[trigger]
            call_ensures(P::eligible_routes, (port,), listed) ==> (listed is Ok
                ==> in_creation_order(listed->Ok_0@)),
        forall|listed: Result<Vec<EligibleRoute>, TaskmasterError>, i: int|
            #![trigger call_ensures(P::eligible_routes, (port,), listed), is_oldest(listed->Ok_0@, i)]
            call_ensures(P::eligible_routes, (port,), listed) && listed is Ok && 0 <= i
                < listed->Ok_0@.len() && is_oldest(listed->Ok_0@, i) ==> port.may_propose(
                listed->Ok_0@[i].route_id@,
                lease_seconds,
            ),
    ensures
        permits_first(port, lease_seconds),
{
    assert forall|listed: Result<Vec<EligibleRoute>, TaskmasterError>| #[trigger]
        call_ensures(P::eligible_routes, (port,), listed) && lists_some(listed) implies port.may_propose(listed->Ok_0@[0].route_id@, lease_seconds) by {
        assert(is_oldest(listed->Ok_0@, 0));
    }
}

/// Over a kernel that lists routes in creation order, the route that a pass
/// reports is the first of a listing, and no route of that listing is older.
pub proof fn pass_reports_the_oldest<P: KernelPort>(
    port: &P,
    lease_seconds: i64,
    result: Result<ScheduleOutcome, TaskmasterError>,
)
    requires
        is_pass(port, lease_seconds, result),
        forall|listed: Result<Vec<EligibleRoute>, TaskmasterError>| #[trigger]
            call_ensures(P::eligible_routes, (port,), listed) ==> (listed is Ok
                ==> in_creation_order(listed->Ok_0@)),
    ensures
        result matches Ok(ScheduleOutcome::Proposed { route_id, outcome }) ==> exists|
            listed: Result<Vec<EligibleRoute>, TaskmasterError>,
        |
            {
                &&& #[trigger] call_ensures(P::eligible_routes, (port,), listed)
                &&& lists_some(listed)
                &&& listed->Ok_0@[0].route_id == route_id
                &&& is_oldest(listed->Ok_0@, 0)
            },
{
}

/// Over a kernel that lists nothing, or cannot list, a pass needs no leave to
/// propose, not even from a port that gives none: it proposes nothing.
pub proof fn nothing_listed_nothing_proposed<P: KernelPort>(port: &P, lease_seconds: i64)
    requires
        forall|listed: Result<Vec<EligibleRoute>, TaskmasterError>| #[trigger]
            call_ensures(P::eligible_routes, (port,), listed) ==> !lists_some(listed),
    ensures
        permits_first(port, lease_seconds),
{
}

/// A pass goes by what the kernel said, case for case. It proposes if and
/// only if a route was listed. It reports that nothing is eligible if and only
/// if the listing came back empty. It reports an outcome for the first route
/// if and only if the kernel answered the proposal with that outcome, so that
/// no claim is lost and none is made up. It fails if and only if the listing
/// or the proposal failed, with that error.
pub proof fn pass_reports_what_the_kernel_said<P: KernelPort>(
    port: &P,
    lease_seconds: i64,
    listed: Result<Vec<EligibleRoute>, TaskmasterError>,
    answer: Option<Result<ClaimOutcome, TaskmasterError>>,
    result: Result<ScheduleOutcome, TaskmasterError>,
)
    requires
        passes(port, lease_seconds, listed, answer, result),
    ensures
        answer is Some <==> lists_some(listed),
        result matches Ok(ScheduleOutcome::NothingEligible) <==> listed is Ok
            && listed->Ok_0@.len() == 0,
        result matches Ok(ScheduleOutcome::Proposed { route_id, outcome }) ==> answer == Some(
            Ok::<ClaimOutcome, TaskmasterError>(outcome),
        ) && route_id == listed->Ok_0@[0].route_id,
        answer matches Some(Ok(outcome)) ==> result == Ok::<ScheduleOutcome, TaskmasterError>(
            (ScheduleOutcome::Proposed { route_id: listed->Ok_0@[0].route_id, outcome }),
        ),
        result matches Err(error) ==> listed == Err::<Vec<EligibleRoute>, TaskmasterError>(error)
            || answer == Some(Err::<ClaimOutcome, TaskmasterError>(error)),
        listed matches Err(error) ==> result == Err::<ScheduleOutcome, TaskmasterError>(error),
        answer matches Some(Err(error)) ==> result == Err::<ScheduleOutcome, TaskmasterError>(
            error,
        ),
{
}

/// One listing and at most one proposal, and nothing of either is lost. Of
/// two calls that can each be made once, a pass makes the first, and makes the
/// second, with the first route's identifier and the given lease, if and only
/// if a route was listed. It reports that nothing is eligible if and only if
/// the listing came back empty, and an outcome if and only if that one
/// proposal returned it.
pub proof fn single_pass_reports_what_came_back<
    L: FnOnce() -> Result<Vec<EligibleRoute>, TaskmasterError>,
    F: FnOnce(&str, i64) -> Result<ClaimOutcome, TaskmasterError>,
>(
    list: L,
    propose: F,
    lease_seconds: i64,
    listed: Result<Vec<EligibleRoute>, TaskmasterError>,
    answer: Option<Result<ClaimOutcome, TaskmasterError>>,
    result: Result<ScheduleOutcome, TaskmasterError>,
)
    requires
        passes_with(list, propose, lease_seconds, listed, answer, result),
    ensures
        call_ensures(list, (), listed),
        answer is Some <==> lists_some(listed),
        answer matches Some(given) ==> exists|proposed: &str|
            proposed@ == listed->Ok_0@[0].route_id@ && #[trigger] call_ensures(
                propose,
                (proposed, lease_seconds),
                given,
            ),
        result matches Ok(ScheduleOutcome::NothingEligible) <==> listed is Ok
            && listed->Ok_0@.len() == 0,
        result matches Ok(ScheduleOutcome::Proposed { route_id, outcome }) ==> answer == Some(
            Ok::<ClaimOutcome, TaskmasterError>(outcome),
        ) && route_id == listed->Ok_0@[0].route_id,
        answer matches Some(Ok(outcome)) ==> result == Ok::<ScheduleOutcome, TaskmasterError>(
            (ScheduleOutcome::Proposed { route_id: listed->Ok_0@[0].route_id, outcome }),
        ),
        answer matches Some(Err(error)) ==> result == Err::<ScheduleOutcome, TaskmasterError>(
            error,
        ),
{
}

/// Where nothing is listed, a pass gets by with a `propose` that cannot be
/// called at all, so it does not call it.
pub proof fn nothing_listed_propose_not_called<
    L: FnOnce() -> Result<Vec<EligibleRoute>, TaskmasterError>,
    F: FnOnce(&str, i64) -> Result<ClaimOutcome, TaskmasterError>,
>(list: L, propose: F, lease_seconds: i64)
    requires
        call_requires(list, ()),
        forall|listed: Result<Vec<EligibleRoute>, TaskmasterError>| #[trigger]
            call_ensures(list, (), listed) ==> !lists_some(listed),
    ensures
        callable(list, propose, lease_seconds),
{
}

/// A pass reports a claim as held only where the kernel has confirmed that
/// very claim; and so for every other outcome: what is reported for a route
/// is the kernel's answer to the proposal of that route, with this lease.
pub proof fn no_claim_without_confirmation<P: KernelPort>(
    port: &P,
    lease_seconds: i64,
    result: Result<ScheduleOutcome, TaskmasterError>,
)
    requires
        is_pass(port, lease_seconds, result),
    ensures
        result matches Ok(ScheduleOutcome::Proposed { route_id, outcome }) ==> is_answer(
            port,
            route_id@,
            lease_seconds,
            Ok(outcome),
        ),
{
}

/// A proposal that loses the race, or names a route this service does not
/// own, is reported with its outcome and never turned into an error.
pub proof fn refused_proposal_is_reported(route: EligibleRoute, outcome: ClaimOutcome)
    ensures
        proposal_result(route, Ok(outcome)) == Ok::<ScheduleOutcome, TaskmasterError>(
            ScheduleOutcome::Proposed { route_id: route.route_id, outcome },
        ),
{
}

/// What a pass over a kernel does, told by the calls alone. The routes are
/// listed. A failed listing is the result. An empty one means that nothing is
/// eligible. Of any other, one route or many, the first is proposed by its own
/// identifier and with the lease that was asked for; a failed proposal is the
/// result, and an answered one is reported under that route with the answer as
/// it came.
pub proof fn pass_proposes_the_first_route_and_reports_the_answer<P: KernelPort>(
    port: &P,
    lease_seconds: i64,
    result: Result<ScheduleOutcome, TaskmasterError>,
)
    requires
        call_ensures(schedule_once::<P>, (port, lease_seconds), result),
    ensures
        exists|listed: Result<Vec<EligibleRoute>, TaskmasterError>|
            {
                &&& #[trigger] call_ensures(P::eligible_routes, (port,), listed)
                &&& listed matches Err(error) ==> result == Err::<ScheduleOutcome, TaskmasterError>(
                    error,
                )
                &&& listed matches Ok(routes) ==> (routes@.len() == 0 ==> result == Ok::<
                    ScheduleOutcome,
                    TaskmasterError,
                >(ScheduleOutcome::NothingEligible))
                &&& listed matches Ok(routes) ==> (routes@.len() > 0 ==> exists|
                    proposed: &str,
                    answer: Result<ClaimOutcome, TaskmasterError>,
                |
                    {
                        &&& proposed@ == routes@[0].route_id@
                        &&& #[trigger] call_ensures(
                            P::propose_claim,
                            (port, proposed, lease_seconds),
                            answer,
                        )
                        &&& answer matches Ok(given) ==> {
                            &&& result matches Ok(ScheduleOutcome::Proposed { route_id, outcome })
                            &&& route_id@ == routes@[0].route_id@
                            &&& outcome == given
                        }
                        &&& answer matches Err(error) ==> result == Err::<
                            ScheduleOutcome,
                            TaskmasterError,
                        >(error)
                    })
            },
{
    let (listed, answer) = choose|
        listed: Result<Vec<EligibleRoute>, TaskmasterError>,
        answer: Option<Result<ClaimOutcome, TaskmasterError>>,
    | #[trigger]
        passes(port, lease_seconds, listed, answer, result);
    assert(call_ensures(P::eligible_routes, (port,), listed));
}

/// A pass can be made over every port that lets the first route of each of
/// its listings be proposed with the lease that was asked for; no other leave
/// is needed.
pub proof fn pass_needs_leave_for_the_first_route_only<P: KernelPort>(
    port: &P,
    lease_seconds: i64,
)
    requires
        forall|listed: Result<Vec<EligibleRoute>, TaskmasterError>| #[trigger]
            call_ensures(P::eligible_routes, (port,), listed) ==> (listed matches Ok(routes)
                ==> (routes@.len() > 0 ==> port.may_propose(
                routes@[0].route_id@,
                lease_seconds,
            ))),
    ensures
        call_requires(schedule_once::<P>, (port, lease_seconds)),
{
}

/// The same of a pass over two calls that can each be made once: what it
/// needs of them, and what comes of it.
pub proof fn single_pass_proposes_the_first_route<
    L: FnOnce() -> Result<Vec<EligibleRoute>, TaskmasterError>,
    F: FnOnce(&str, i64) -> Result<ClaimOutcome, TaskmasterError>,
>(
    list: L,
    propose: F,
    lease_seconds: i64,
    result: Result<ScheduleOutcome, TaskmasterError>,
)
    ensures
        (call_requires(list, ()) && forall|
            listed: Result<Vec<EligibleRoute>, TaskmasterError>,
            proposed: &str,
        |
            #![trigger call_ensures(list, (), listed), call_requires(propose, (proposed, lease_seconds))]
            call_ensures(list, (), listed) ==> (listed matches Ok(routes) ==> (routes@.len() > 0
                && proposed@ == routes@[0].route_id@ ==> call_requires(
                propose,
                (proposed, lease_seconds),
            )))) ==> call_requires(pass_with::<L, F>, (list, propose, lease_seconds)),
        call_ensures(pass_with::<L, F>, (list, propose, lease_seconds), result) ==> exists|
            listed: Result<Vec<EligibleRoute>, TaskmasterError>,
        |
            {
                &&& #[trigger] call_ensures(list, (), listed)
                &&& listed matches Err(error) ==> result == Err::<ScheduleOutcome, TaskmasterError>(
                    error,
                )
                &&& listed matches Ok(routes) ==> (routes@.len() == 0 ==> result == Ok::<
                    ScheduleOutcome,
                    TaskmasterError,
                >(ScheduleOutcome::NothingEligible))
                &&& listed matches Ok(routes) ==> (routes@.len() > 0 ==> exists|
                    proposed: &str,
                    answer: Result<ClaimOutcome, TaskmasterError>,
                |
                    {
                        &&& proposed@ == routes@[0].route_id@
                        &&& #[trigger] call_ensures(propose, (proposed, lease_seconds), answer)
                        &&& answer matches Ok(given) ==> {
                            &&& result matches Ok(ScheduleOutcome::Proposed { route_id, outcome })
                            &&& route_id@ == routes@[0].route_id@
                            &&& outcome == given
                        }
                        &&& answer matches Err(error) ==> result == Err::<
                            ScheduleOutcome,
                            TaskmasterError,
                        >(error)
                    })
            },
{
    if call_ensures(pass_with::<L, F>, (list, propose, lease_seconds), result) {
        let (listed, answer) = choose|
            listed: Result<Vec<EligibleRoute>, TaskmasterError>,
            answer: Option<Result<ClaimOutcome, TaskmasterError>>,
        | #[trigger]
            passes_with(list, propose, lease_seconds, listed, answer, result);
        assert(call_ensures(list, (), listed));
    }
}

/// The first route of a listing is the one at its head, whatever follows, and
/// is there whenever anything is. A proposal is reported under its route with
/// the kernel's answer as it came.
pub proof fn head_is_taken_and_answer_is_kept(
    routes: Vec<EligibleRoute>,
    first: Option<EligibleRoute>,
    route: EligibleRoute,
    answer: Result<ClaimOutcome, TaskmasterError>,
    result: Result<ScheduleOutcome, TaskmasterError>,
)
    requires
        call_ensures(first_route, (routes,), first),
        call_ensures(report_proposal, (route, answer), result),
    ensures
        first is None <==> routes@.len() == 0,
        first matches Some(head) ==> head == routes@[0],
        answer matches Ok(given) ==> {
            &&& result matches Ok(ScheduleOutcome::Proposed { route_id, outcome })
            &&& route_id@ == route.route_id@
            &&& outcome == given
        },
        answer matches Err(error) ==> result == Err::<ScheduleOutcome, TaskmasterError>(error),
{
}

} // verus!
