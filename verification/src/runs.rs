//! Whole runs of the startup machine, and what holds of every one of them.

use vstd::prelude::*;
use crate::bootstrapper::{
    Action, Bootstrapper, BuildMode, Event, Outcome, PollPolicy, Stage, outcome_of,
};

verus! {

impl Bootstrapper {
    /// The machine after it has taken in `events`, first to last.
    pub open spec fn after(self, events: Seq<Event>) -> Bootstrapper
        decreases events.len(),
    {
        if events.len() == 0 {
            self
        } else {
            self.after(events.drop_last()).spec_step(events.last()).0
        }
    }

    /// What the machine asks of the host while it takes in `events`, one
    /// action for each event.
    pub open spec fn actions(self, events: Seq<Event>) -> Seq<Action>
        decreases events.len(),
    {
        if events.len() == 0 {
            Seq::empty()
        } else {
            self.actions(events.drop_last()).push(
                self.after(events.drop_last()).spec_step(events.last()).1,
            )
        }
    }

    /// 1 if the window has been sent to the server's page, 0 if not.
    pub open spec fn navigations_so_far(self) -> nat {
        if self.spec_navigated() {
            1
        } else {
            0
        }
    }

    /// Whether the resource directory has been resolved and the run has not
    /// ended yet.
    pub open spec fn under_way(self) -> bool {
        self.stage is SelectingRuntime || self.stage is Spawning || self.stage is Probing
            || self.stage is Sleeping
    }
}

/// How many times `actions` sends the window to the server's page.
pub open spec fn navigations(actions: Seq<Action>) -> nat
    decreases actions.len(),
{
    if actions.len() == 0 {
        0
    } else {
        navigations(actions.drop_last()) + if actions.last() == Action::Navigate {
            1nat
        } else {
            0nat
        }
    }
}

/// The machine answers every event with one action.
pub proof fn lemma_one_action_per_event(boot: Bootstrapper, events: Seq<Event>)
    ensures
        boot.actions(events).len() == events.len(),
    decreases events.len(),
{
    if events.len() > 0 {
        lemma_one_action_per_event(boot, events.drop_last());
    }
}

/// Taking in a run one event shorter gives the same actions but the last.
pub proof fn lemma_actions_prefix(boot: Bootstrapper, events: Seq<Event>, i: int)
    requires
        0 <= i < events.len() - 1,
    ensures
        boot.actions(events)[i] == boot.actions(events.drop_last())[i],
{
    lemma_one_action_per_event(boot, events.drop_last());
}

/// Whatever the machine is fed from whatever stage, the navigations it asks
/// for add up to the difference between having navigated afterwards and
/// having navigated before.
pub proof fn lemma_navigations_add_up(boot: Bootstrapper, events: Seq<Event>)
    ensures
        navigations(boot.actions(events)) + boot.navigations_so_far() == boot.after(
            events,
        ).navigations_so_far(),
    decreases events.len(),
{
    if events.len() > 0 {
        let shorter = events.drop_last();
        lemma_navigations_add_up(boot, shorter);
        assert(boot.actions(events).drop_last() =~= boot.actions(shorter));
    }
}

/// The window is sent to the server's page exactly once in a run that ends
/// after the resource directory was resolved, and never in any other run:
/// not before the run ends, not again after it has ended, and not at all in
/// a development build or without a resource directory.
pub proof fn lemma_navigates_exactly_once(policy: PollPolicy, events: Seq<Event>)
    ensures
        navigations(Bootstrapper::spec_new(policy).actions(events)) == (if Bootstrapper::spec_new(
            policy,
        ).after(events).spec_navigated() {
            1nat
        } else {
            0nat
        }),
{
    lemma_navigations_add_up(Bootstrapper::spec_new(policy), events);
}

/// Once the resource directory is resolved, a run is either still under way
/// or has ended by sending the window to the server's page: neither a failed
/// spawn nor a server that never answers ends it any other way.
pub proof fn lemma_resolved_run_ends_navigated(boot: Bootstrapper, events: Seq<Event>)
    requires
        boot.under_way(),
    ensures
        boot.after(events).under_way() || boot.after(events).spec_navigated(),
        boot.after(events).spec_finished() ==> navigations(boot.actions(events)) == 1,
        boot.after(events).policy == boot.policy,
    decreases events.len(),
{
    if events.len() > 0 {
        lemma_resolved_run_ends_navigated(boot, events.drop_last());
    }
    lemma_navigations_add_up(boot, events);
}

/// A development build does nothing: after it has been told that it is one,
/// the machine asks the host for no spawn, no connection attempt, no sleep
/// and no navigation, whatever it is fed.
pub proof fn lemma_debug_build_is_inert(policy: PollPolicy, events: Seq<Event>)
    requires
        events.len() > 0,
        events[0] == Event::Start(BuildMode::Debug),
    ensures
        Bootstrapper::spec_new(policy).after(events).stage == Stage::Finished(Outcome::Skipped),
        Bootstrapper::spec_new(policy).actions(events).len() == events.len(),
        Bootstrapper::spec_new(policy).actions(events)[0] == Action::Stop,
        forall|i: int|
            0 <= i < events.len() ==> !(#[trigger] Bootstrapper::spec_new(policy).actions(
                events,
            )[i]).spec_has_effect(),
    decreases events.len(),
{
    let boot = Bootstrapper::spec_new(policy);
    let shorter = events.drop_last();
    lemma_one_action_per_event(boot, events);
    if events.len() == 1 {
        assert(shorter.len() == 0);
        assert(boot.after(shorter) == boot);
        assert(boot.actions(shorter).len() == 0);
    } else {
        lemma_debug_build_is_inert(policy, shorter);
        assert forall|i: int| 0 <= i < events.len() implies !(#[trigger] boot.actions(
            events,
        )[i]).spec_has_effect() by {
            if i < events.len() - 1 {
                lemma_actions_prefix(boot, events, i);
            }
        }
    }
}

/// Whether a port that accepts connections from `ready_from_ms` on (never,
/// if `None`) accepts one at `now_ms`.
pub open spec fn port_accepts(ready_from_ms: Option<nat>, now_ms: nat) -> bool {
    ready_from_ms matches Some(from_ms) && from_ms <= now_ms
}

/// How a wait for the server ended on an ideal clock.
pub struct PollEnd {
    /// The machine at the end of the wait.
    pub boot: Bootstrapper,
    /// The time since the spawn returned, in milliseconds.
    pub exit_ms: nat,
    /// The number of connection attempts made.
    pub probes: nat,
}

impl Bootstrapper {
    /// The rest of the wait of a machine that asked for a connection attempt
    /// at `now_ms`, on an ideal clock: an attempt takes no time, and a sleep
    /// takes exactly as long as was asked. The wait goes on for as long as
    /// the machine asks for another attempt after a sleep. With an interval
    /// of zero such a clock stands still, and the result is the machine after
    /// one round.
    pub open spec fn ideal_wait(self, now_ms: nat, ready_from_ms: Option<nat>) -> PollEnd
        decreases self.policy.timeout_ms - now_ms,
    {
        let probed = self.spec_step(
            Event::Probed { connected: port_accepts(ready_from_ms, now_ms) },
        ).0;
        let later_ms = (now_ms + self.policy.interval_ms) as nat;
        let woken = probed.spec_step(Event::Slept { elapsed_ms: later_ms as u64 }).0;
        if !(probed.stage is Sleeping) {
            PollEnd { boot: probed, exit_ms: now_ms, probes: 1 }
        } else if woken.stage is Probing && now_ms < later_ms < self.policy.timeout_ms {
            let rest = woken.ideal_wait(later_ms, ready_from_ms);
            PollEnd { boot: rest.boot, exit_ms: rest.exit_ms, probes: rest.probes + 1 }
        } else {
            PollEnd { boot: woken, exit_ms: later_ms, probes: 1 }
        }
    }
}

/// The whole wait for the server on an ideal clock, from the moment the
/// spawn returns with `launch_error`.
pub open spec fn ideal_poll(
    policy: PollPolicy,
    launch_error: Option<String>,
    ready_from_ms: Option<nat>,
) -> PollEnd {
    let started = (Bootstrapper { policy, stage: Stage::Spawning }).spec_step(
        Event::Spawned { error: launch_error },
    ).0;
    if started.stage is Probing {
        started.ideal_wait(0, ready_from_ms)
    } else {
        PollEnd { boot: started, exit_ms: 0, probes: 0 }
    }
}

/// What holds of the rest of a wait on an ideal clock, from any attempt on.
proof fn lemma_ideal_wait(
    policy: PollPolicy,
    launch_error: Option<String>,
    now_ms: nat,
    ready_from_ms: Option<nat>,
)
    requires
        policy.interval_ms > 0,
        now_ms < policy.timeout_ms,
    ensures
        ({
            let end = (Bootstrapper { policy, stage: Stage::Probing { launch_error } }).ideal_wait(
                now_ms,
                ready_from_ms,
            );
            &&& now_ms <= end.exit_ms < policy.timeout_ms + policy.interval_ms
            &&& end.probes >= 1
            &&& end.exit_ms < policy.timeout_ms ==> end.exit_ms == now_ms + (end.probes - 1)
                * policy.interval_ms
            &&& end.exit_ms >= policy.timeout_ms ==> end.exit_ms == now_ms + end.probes
                * policy.interval_ms
            &&& end.boot.policy == policy
            &&& end.boot.stage == Stage::Finished(
                outcome_of(launch_error, end.exit_ms < policy.timeout_ms),
            )
            &&& end.exit_ms < policy.timeout_ms ==> port_accepts(ready_from_ms, end.exit_ms)
            &&& end.exit_ms > now_ms ==> !port_accepts(
                ready_from_ms,
                (end.exit_ms - policy.interval_ms) as nat,
            )
            &&& port_accepts(ready_from_ms, now_ms) ==> end.exit_ms == now_ms
        }),
    decreases policy.timeout_ms - now_ms,
{
    let boot = Bootstrapper { policy, stage: Stage::Probing { launch_error } };
    let later_ms = (now_ms + policy.interval_ms) as nat;
    if !port_accepts(ready_from_ms, now_ms) && later_ms < policy.timeout_ms {
        lemma_ideal_wait(policy, launch_error, later_ms, ready_from_ms);
        let rest = (Bootstrapper { policy, stage: Stage::Probing { launch_error } }).ideal_wait(
            later_ms,
            ready_from_ms,
        );
        assert(now_ms + (rest.probes + 1 - 1) * policy.interval_ms == later_ms + (rest.probes - 1)
            * policy.interval_ms) by (nonlinear_arith)
            requires
                later_ms == now_ms + policy.interval_ms,
        ;
        assert(now_ms + (rest.probes + 1) * policy.interval_ms == later_ms + rest.probes
            * policy.interval_ms) by (nonlinear_arith)
            requires
                later_ms == now_ms + policy.interval_ms,
        ;
    }
}

/// On an ideal clock the wait for the server ends less than one interval
/// after the timeout, whether or not the port ever accepts a connection, and
/// it ends with the window sent to the server's page.
pub proof fn lemma_wait_ends_in_time(
    policy: PollPolicy,
    launch_error: Option<String>,
    ready_from_ms: Option<nat>,
)
    requires
        policy.interval_ms > 0,
    ensures
        ideal_poll(policy, launch_error, ready_from_ms).exit_ms < policy.timeout_ms
            + policy.interval_ms,
        ideal_poll(policy, launch_error, ready_from_ms).probes * policy.interval_ms
            < policy.timeout_ms + policy.interval_ms,
        ideal_poll(policy, launch_error, ready_from_ms).boot.spec_navigated(),
{
    if policy.timeout_ms > 0 {
        lemma_ideal_wait(policy, launch_error, 0, ready_from_ms);
        let end = ideal_poll(policy, launch_error, ready_from_ms);
        assert((end.probes - 1) * policy.interval_ms + policy.interval_ms == end.probes
            * policy.interval_ms) by (nonlinear_arith);
    } else {
        assert(0 * policy.interval_ms == 0);
    }
}

/// On an ideal clock attempts are made every interval from the start of the
/// wait, for as long as less than the timeout has passed. The wait ends at
/// the first attempt that the port accepts; if there is none, it ends at the
/// first look at the clock at or after the timeout.
pub proof fn lemma_wait_ends_at_first_answer(
    policy: PollPolicy,
    launch_error: Option<String>,
    ready_from_ms: Option<nat>,
)
    requires
        policy.interval_ms > 0,
        policy.timeout_ms > 0,
    ensures
        ({
            let end = ideal_poll(policy, launch_error, ready_from_ms);
            let answered = end.exit_ms < policy.timeout_ms;
            &&& end.probes >= 1
            &&& end.boot.stage == Stage::Finished(outcome_of(launch_error, answered))
            &&& answered ==> end.exit_ms == (end.probes - 1) * policy.interval_ms
            &&& answered ==> port_accepts(ready_from_ms, end.exit_ms)
            &&& !answered ==> end.exit_ms == end.probes * policy.interval_ms
            &&& end.exit_ms > 0 ==> !port_accepts(
                ready_from_ms,
                (end.exit_ms - policy.interval_ms) as nat,
            )
        }),
{
    lemma_ideal_wait(policy, launch_error, 0, ready_from_ms);
}

/// A port that accepts connections before the wait starts is seen at the
/// first attempt, before any time has passed: the wait ends at once, and
/// the run ends as launched unless the spawn itself had failed.
pub proof fn lemma_listening_port_is_seen(policy: PollPolicy, launch_error: Option<String>)
    requires
        policy.timeout_ms > 0,
    ensures
        ideal_poll(policy, launch_error, Some(0nat)).exit_ms == 0,
        ideal_poll(policy, launch_error, Some(0nat)).probes == 1,
        ideal_poll(policy, launch_error, Some(0nat)).boot.stage == Stage::Finished(
            outcome_of(launch_error, true),
        ),
        ideal_poll(policy, launch_error, Some(0nat)).boot.spec_navigated(),
{
}

/// A port that never accepts a connection makes the wait end at the first
/// look at the clock at or after the timeout, less than one interval late,
/// after one attempt per interval; the run then ends as timed out, unless
/// the spawn itself had failed, with the window sent to the server's page.
pub proof fn lemma_silent_port_times_out(policy: PollPolicy, launch_error: Option<String>)
    requires
        policy.interval_ms > 0,
    ensures
        policy.timeout_ms <= ideal_poll(policy, launch_error, None).exit_ms < policy.timeout_ms
            + policy.interval_ms,
        ideal_poll(policy, launch_error, None).exit_ms == ideal_poll(
            policy,
            launch_error,
            None,
        ).probes * policy.interval_ms,
        ideal_poll(policy, launch_error, None).boot.stage == Stage::Finished(
            outcome_of(launch_error, false),
        ),
        ideal_poll(policy, launch_error, None).boot.spec_navigated(),
{
    if policy.timeout_ms > 0 {
        lemma_ideal_wait(policy, launch_error, 0, None);
    } else {
        assert(0 * policy.interval_ms == 0);
    }
}

} // verus!
