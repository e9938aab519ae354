//! The scheduling loop: wake, renew the instance lease if it is due, make one
//! scheduling pass, sleep. The loop never ends and no failure stops it; a
//! kernel or network hiccup is met again on the next round.

use vstd::prelude::*;

use crate::config::Config;
use crate::error::TaskmasterError;
use crate::instance_lease::{record_renewal, renewal_due, InstanceLease, RenewedLease};
use crate::scheduler::ScheduleOutcome;

verus! {

/// What the loop needs done next.
#[derive(Debug, PartialEq, Eq)]
pub enum RunAction {
    /// Renew the instance lease, quoting this revision.
    RenewLease { expected_revision: i64 },
    /// Make one scheduling pass, proposing this lease.
    Schedule { lease_seconds: i64 },
    /// Sleep this long.
    Sleep { seconds: u64 },
}

/// What came of the last action.
pub enum RunEvent {
    /// The loop starts, or has slept; the clock shows `now`.
    Woke { now: i64 },
    /// The kernel answered the renewal, or could not be asked.
    Renewed(Result<RenewedLease, TaskmasterError>),
    /// The scheduling pass is over.
    Scheduled(Result<ScheduleOutcome, TaskmasterError>),
}

/// What an event calls for, under a configuration.
pub open spec fn action_for(config: Config, event: RunEvent) -> RunAction {
    let schedule = RunAction::Schedule { lease_seconds: config.lease_seconds };
    match event {
        RunEvent::Woke { now } => match crate::instance_lease::due_revision(
            config.instance_lease,
            now,
        ) {
            Some(expected_revision) => RunAction::RenewLease { expected_revision },
            None => schedule,
        },
        RunEvent::Renewed(_) => schedule,
        RunEvent::Scheduled(_) => RunAction::Sleep { seconds: config.poll_interval_seconds },
    }
}

/// The lease this process has after an event: only an answered renewal
/// changes it.
pub open spec fn lease_after(config: Config, event: RunEvent) -> Option<InstanceLease> {
    match event {
        RunEvent::Renewed(answer) => crate::instance_lease::after_renewal(
            config.instance_lease,
            answer,
        ),
        _ => config.instance_lease,
    }
}

/// The configuration after an event.
pub open spec fn config_after(config: Config, event: RunEvent) -> Config {
    Config { instance_lease: lease_after(config, event), ..config }
}

/// Decides what the loop does next. A held lease whose expiry is so early
/// that the margin before it cannot be counted is left out.
pub fn next_action(config: &mut Config, event: RunEvent) -> (action: RunAction)
    requires
        event is Woke ==> (old(config).instance_lease matches Some(lease) ==> i64::MIN
            <= lease.expires_at - crate::instance_lease::RENEWAL_MARGIN_SECONDS),
    ensures
        action == action_for(*old(config), event),
        *final(config) == config_after(*old(config), event),
        final(config).client == old(config).client,
        final(config).lease_seconds == old(config).lease_seconds,
        final(config).poll_interval_seconds == old(config).poll_interval_seconds,
        !(event matches RunEvent::Renewed(Ok(_))) ==> final(config).instance_lease
            == old(config).instance_lease,
{
    match event {
        RunEvent::Woke { now } => match renewal_due(&config.instance_lease, now) {
            Some(expected_revision) => RunAction::RenewLease { expected_revision },
            None => RunAction::Schedule { lease_seconds: config.lease_seconds },
        },
        RunEvent::Renewed(answer) => {
            record_renewal(&mut config.instance_lease, &answer);
            RunAction::Schedule { lease_seconds: config.lease_seconds }
        },
        RunEvent::Scheduled(_) => RunAction::Sleep { seconds: config.poll_interval_seconds },
    }
}

/// The configuration at the moment a round makes its scheduling pass: the
/// round began at `now`, and `answer` is what a renewal is met with.
pub open spec fn config_at_pass(
    config: Config,
    now: i64,
    answer: Result<RenewedLease, TaskmasterError>,
) -> Config {
    let woken = config_after(config, RunEvent::Woke { now });
    if action_for(config, RunEvent::Woke { now }) is RenewLease {
        config_after(woken, RunEvent::Renewed(answer))
    } else {
        woken
    }
}

/// Every round makes one scheduling pass with the configured lease and then
/// sleeps for the configured interval, whatever the renewal and the pass come
/// to; the lease is renewed before the pass, and only where it is due.
pub proof fn every_round_schedules_and_sleeps(
    config: Config,
    now: i64,
    answer: Result<RenewedLease, TaskmasterError>,
    outcome: Result<ScheduleOutcome, TaskmasterError>,
)
    ensures
        ({
            let woke = RunEvent::Woke { now };
            let due = crate::instance_lease::due_revision(config.instance_lease, now);
            let at_pass = config_at_pass(config, now, answer);
            let pass = RunAction::Schedule { lease_seconds: config.lease_seconds };
            let sleep = RunAction::Sleep { seconds: config.poll_interval_seconds };
            &&& match due {
                Some(expected_revision) => {
                    &&& action_for(config, woke) == RunAction::RenewLease { expected_revision }
                    &&& action_for(config_after(config, woke), RunEvent::Renewed(answer)) == pass
                },
                None => action_for(config, woke) == pass,
            }
            &&& action_for(at_pass, RunEvent::Scheduled(outcome)) == sleep
            &&& config_after(at_pass, RunEvent::Scheduled(outcome)) == Config {
                instance_lease: if due is Some {
                    crate::instance_lease::after_renewal(config.instance_lease, answer)
                } else {
                    config.instance_lease
                },
                ..config
            }
        }),
{
}

/// A round whose renewal failed is followed by one that tries again with the
/// same revision, as long as the clock does not run backwards.
pub proof fn failed_renewal_is_tried_again_next_round(
    config: Config,
    now: i64,
    error: TaskmasterError,
    outcome: Result<ScheduleOutcome, TaskmasterError>,
    next: i64,
)
    requires
        action_for(config, RunEvent::Woke { now }) is RenewLease,
        now <= next,
    ensures
        ({
            let failed = Err::<RenewedLease, TaskmasterError>(error);
            let slept = config_after(
                config_at_pass(config, now, failed),
                RunEvent::Scheduled(outcome),
            );
            action_for(slept, RunEvent::Woke { now: next }) == action_for(
                config,
                RunEvent::Woke { now },
            )
        }),
{
}

/// Who this service is, which kernel it talks to and its intervals never
/// change while it runs.
pub proof fn identity_and_intervals_never_change(config: Config, event: RunEvent)
    ensures
        config_after(config, event).client == config.client,
        config_after(config, event).lease_seconds == config.lease_seconds,
        config_after(config, event).poll_interval_seconds == config.poll_interval_seconds,
{
}

/// What each event leads to, told by the fields of the action. On waking, a
/// held lease that runs out in twenty seconds or less is renewed with its own
/// revision, and otherwise a pass is made; after a renewal, however it went, a
/// pass is made; after a pass, however it went, the loop sleeps. A pass
/// proposes the configured lease, and a sleep lasts the configured interval.
pub proof fn events_lead_to_actions(config: Config, event: RunEvent)
    ensures
        ({
            let action = action_for(config, event);
            &&& action matches RunAction::RenewLease { expected_revision } ==> {
                &&& event is Woke
                &&& config.instance_lease matches Some(lease)
                &&& lease.expires_at - event->now <= 20
                &&& expected_revision == lease.revision
            }
            &&& (event is Woke && (config.instance_lease matches Some(lease)
                && lease.expires_at - event->now <= 20)) ==> action is RenewLease
            &&& action is Sleep <==> event is Scheduled
            &&& action matches RunAction::Schedule { lease_seconds } ==> lease_seconds
                == config.lease_seconds
            &&& action matches RunAction::Sleep { seconds } ==> seconds
                == config.poll_interval_seconds
        }),
{
}

/// One step of the loop, told by what goes in and what comes out. Waking
/// renews a held lease that runs out in twenty seconds or less, with the
/// revision it has, and otherwise makes a pass; a renewal, however it went, is
/// followed by a pass, and a pass by a sleep. Passes propose the configured
/// lease and sleeps last the configured interval. Of what the loop runs on,
/// only the held lease ever changes, and only to what a renewal granted.
pub proof fn step_follows_the_event(config: &mut Config, event: RunEvent, action: RunAction)
    requires
        call_ensures(next_action, (config, event), action),
    ensures
        event matches RunEvent::Woke { now } ==> match old(config).instance_lease {
            Some(lease) => if lease.expires_at - now <= 20 {
                action matches RunAction::RenewLease { expected_revision } && expected_revision
                    == lease.revision
            } else {
                action matches RunAction::Schedule { lease_seconds } && lease_seconds
                    == old(config).lease_seconds
            },
            None => action matches RunAction::Schedule { lease_seconds } && lease_seconds
                == old(config).lease_seconds,
        },
        event is Renewed ==> (action matches RunAction::Schedule { lease_seconds } && lease_seconds
            == old(config).lease_seconds),
        event is Scheduled ==> (action matches RunAction::Sleep { seconds } && seconds
            == old(config).poll_interval_seconds),
        final(config).client == old(config).client,
        final(config).lease_seconds == old(config).lease_seconds,
        final(config).poll_interval_seconds == old(config).poll_interval_seconds,
        !(event matches RunEvent::Renewed(Ok(_))) ==> final(config).instance_lease
            == old(config).instance_lease,
        event matches RunEvent::Renewed(Ok(granted)) ==> match old(config).instance_lease {
            Some(_) => {
                &&& final(config).instance_lease matches Some(lease)
                &&& lease.revision == granted.lease_revision
                &&& lease.expires_at == granted.lease_expires_at
            },
            None => final(config).instance_lease is None,
        },
{
}

/// Only a granted renewal changes what the loop holds, and it changes only
/// the lease: the revision and the expiry become those of the grant.
pub proof fn only_a_grant_changes_the_lease(config: Config, event: RunEvent)
    ensures
        ({
            let after = config_after(config, event);
            &&& after.instance_lease is Some <==> config.instance_lease is Some
            &&& !(event matches RunEvent::Renewed(Ok(_))) ==> after == config
            &&& event matches RunEvent::Renewed(Ok(granted)) ==> (after.instance_lease matches Some(
                lease,
            ) ==> lease.revision == granted.lease_revision && lease.expires_at
                == granted.lease_expires_at)
        }),
{
}

} // verus!
