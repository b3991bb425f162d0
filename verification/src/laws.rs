//! What holds of every toggle.
//!
//! The statements about a host are statements about the in-memory host of
//! this crate, on which an operation either works or is refused, now and
//! later alike, and each step of a plan can fail on its own.

use vstd::prelude::*;
use crate::config::ConfigView;
use crate::effects::{
    lemma_effect_laws, lemma_run_closed_form, lemma_same_effects, net_effect, outcomes_of,
    step_effect, step_succeeds,
};
use crate::engine::{phase_holds, verdict};
use crate::host::{HostView, Refusals};
use crate::model::{Direction, MacroState, Signal};
use crate::plan::{
    corrupt_steps, path_restore_steps, plan_steps, policy_clear_steps, policy_write_steps,
    reset_service_steps, restore_steps, OperationView, Phase, StepView,
};
use crate::probe::{lemma_probe_is_disjunction, signal_present};
use crate::shape::{
    all_succeed, assigned_mode, lemma_disable_effect, lemma_disable_verdict,
    lemma_restore_effect, lemma_restore_verdict, lemma_task_steps_plain, start_mode_configured,
    start_mode_reached, task_step_is_plain,
};

verus! {

/// The phases whose results make up the verdict of a toggle.
pub open spec fn decisive(direction: Direction, phase: Phase) -> bool {
    match direction {
        Direction::Disable => phase == Phase::WritePolicy || phase == Phase::CorruptPath,
        Direction::Restore => phase == Phase::ClearPolicy || phase == Phase::RestorePath,
    }
}

/// Best-effort independence: the verdict of a toggle is told by the steps of
/// its decisive phases alone. Two runs of one plan that differ only in how
/// other steps went, such as every scheduled-task step failing in one of
/// them, have the same verdict.
pub proof fn lemma_verdict_independent(
    direction: Direction,
    steps: Seq<StepView>,
    first: Seq<bool>,
    second: Seq<bool>,
)
    requires
        first.len() == second.len(),
        forall|i: int|
            0 <= i < steps.len() && i < first.len() && decisive(
                direction,
                (#[trigger] steps[i]).phase,
            ) ==> first[i] == second[i],
    ensures
        verdict(direction, steps, first) == verdict(direction, steps, second),
{
    assert forall|phase: Phase| decisive(direction, phase) implies phase_holds(steps, first, phase)
        == phase_holds(steps, second, phase) by {
        if phase_holds(steps, first, phase) {
            assert forall|i: int|
                0 <= i < steps.len() && i < second.len() && (#[trigger] steps[i]).phase
                    == phase implies second[i] by {}
        }
        if phase_holds(steps, second, phase) {
            assert forall|i: int|
                0 <= i < steps.len() && i < first.len() && (#[trigger] steps[i]).phase
                    == phase implies first[i] by {}
        }
    }
    assert(decisive(Direction::Disable, Phase::WritePolicy));
    assert(decisive(Direction::Disable, Phase::CorruptPath));
    assert(decisive(Direction::Restore, Phase::ClearPolicy));
    assert(decisive(Direction::Restore, Phase::RestorePath));
}

/// A toggle on a host in terms of the host's refusals: the readings it
/// leaves and its verdict.
pub proof fn lemma_toggle_closed_form(host: HostView, config: ConfigView, direction: Direction)
    ensures
        host.toggle(config, direction) == (
            HostView {
                readings: net_effect(config, host.refusals, plan_steps(config, direction)).apply(
                    host.readings,
                ),
                refusals: host.refusals,
            },
            verdict(
                direction,
                plan_steps(config, direction),
                outcomes_of(host.refusals, plan_steps(config, direction)),
            ),
        ),
{
    lemma_run_closed_form(host, config, plan_steps(config, direction));
}

/// Idempotence of a toggle: called a second time, every step fares as it
/// did the first time, none failing for having been applied before, and the
/// host is left exactly as the first call left it.
pub proof fn lemma_toggle_idempotent(host: HostView, config: ConfigView, direction: Direction)
    ensures
        ({
            let steps = plan_steps(config, direction);
            let (once, first) = host.run(config, steps);
            let (twice, second) = once.run(config, steps);
            second == first && twice == once
        }),
        ({
            let (once, succeeded) = host.toggle(config, direction);
            once.toggle(config, direction) == (once, succeeded)
        }),
{
    let steps = plan_steps(config, direction);
    lemma_run_closed_form(host, config, steps);
    let once = host.run(config, steps).0;
    lemma_run_closed_form(once, config, steps);
    let effect = net_effect(config, host.refusals, steps);
    lemma_effect_laws(effect, effect, host.readings);
}

/// The verdict of either toggle in terms of its decisive steps: a disable
/// succeeds if every policy write does, or if the configuration corrupts the
/// path and both steps of that do; a restore succeeds if every step that
/// clears the policy does and, where there are any, the steps that restore
/// the path. What the host holds has no say: where no policy value exists
/// at all, clearing the policy succeeds as it does anywhere.
pub proof fn lemma_verdict_by_steps(host: HostView, config: ConfigView)
    ensures
        host.toggle(config, Direction::Disable).1 == (all_succeed(
            host.refusals,
            policy_write_steps(config),
        ) || (config.corrupt_path && all_succeed(host.refusals, corrupt_steps(config)))),
        host.toggle(config, Direction::Restore).1 == (all_succeed(
            host.refusals,
            policy_clear_steps(config),
        ) && all_succeed(host.refusals, path_restore_steps(config))),
{
    lemma_toggle_closed_form(host, config, Direction::Disable);
    lemma_toggle_closed_form(host, config, Direction::Restore);
    lemma_disable_verdict(config, host.refusals);
    lemma_restore_verdict(config, host.refusals);
}

/// A disable that reports success leaves a host that probes as suppressed,
/// provided the probe consults the mechanisms that make a disable succeed.
/// A second disable right after it reports the same and leaves the same.
pub proof fn lemma_disable_suppresses(host: HostView, config: ConfigView)
    requires
        config.coherent(),
        config.probe_sees_mechanisms(),
    ensures
        ({
            let (once, succeeded) = host.toggle(config, Direction::Disable);
            let (twice, again) = once.toggle(config, Direction::Disable);
            &&& again == succeeded
            &&& succeeded ==> once.state(config) == MacroState::Suppressed
            &&& succeeded ==> twice.state(config) == MacroState::Suppressed
        }),
{
    lemma_toggle_idempotent(host, config, Direction::Disable);
    lemma_toggle_closed_form(host, config, Direction::Disable);
    lemma_disable_verdict(config, host.refusals);
    lemma_disable_effect(config, host.refusals);
    let (once, succeeded) = host.toggle(config, Direction::Disable);
    if succeeded {
        if all_succeed(host.refusals, policy_write_steps(config)) {
            assert(signal_present(config, once.readings, Signal::PolicyFlagSet));
        } else {
            assert(signal_present(config, once.readings, Signal::ServicePathCorrupted));
        }
    }
}

/// A disable never lifts a suppression: a host that probes as suppressed
/// still does after a disable, however the steps of the disable went.
pub proof fn lemma_disable_keeps_suppression(host: HostView, config: ConfigView)
    requires
        config.coherent(),
        host.state(config) == MacroState::Suppressed,
    ensures
        host.toggle(config, Direction::Disable).0.state(config) == MacroState::Suppressed,
{
    lemma_toggle_closed_form(host, config, Direction::Disable);
    lemma_disable_effect(config, host.refusals);
    let after = host.toggle(config, Direction::Disable).0;
    let signal = choose|signal: Signal|
        config.signals.has(signal) && #[trigger] signal_present(config, host.readings, signal);
    assert(signal_present(config, after.readings, signal));
}

/// A restore never brings a suppression about: a host that probes as active
/// still does after a restore, however the steps of the restore went.
pub proof fn lemma_restore_keeps_activity(host: HostView, config: ConfigView)
    requires
        config.coherent(),
        host.state(config) == MacroState::Active,
    ensures
        host.toggle(config, Direction::Restore).0.state(config) == MacroState::Active,
{
    lemma_toggle_closed_form(host, config, Direction::Restore);
    lemma_restore_effect(config, host.refusals);
    let after = host.toggle(config, Direction::Restore).0;
    lemma_probe_is_disjunction(config, host.readings);
    lemma_probe_is_disjunction(config, after.readings);
}

/// After a restore that reports success the policy flag does not read as
/// set, whatever it read as before.
pub proof fn lemma_restore_clears_policy(host: HostView, config: ConfigView)
    requires
        config.coherent(),
    ensures
        ({
            let (restored, succeeded) = host.toggle(config, Direction::Restore);
            succeeded ==> !signal_present(config, restored.readings, Signal::PolicyFlagSet)
        }),
{
    lemma_toggle_closed_form(host, config, Direction::Restore);
    lemma_restore_effect(config, host.refusals);
    lemma_restore_verdict(config, host.refusals);
}

/// What a disable did to the start mode of the primary service, a restore
/// undoes, if it succeeds and either resets every service of the roster or
/// runs on a host that refuses no single operation.
proof fn lemma_restore_reaches_start_mode(config: ConfigView, refusals: Refusals)
    requires
        all_succeed(refusals, policy_clear_steps(config)),
        all_succeed(refusals, path_restore_steps(config)),
        all_succeed(refusals, reset_service_steps(config)) || refusals.operations.len() == 0,
        start_mode_reached(config, refusals, Direction::Disable),
    ensures
        start_mode_reached(config, refusals, Direction::Restore),
{
    lemma_restore_verdict(config, refusals);
    if start_mode_configured(config, refusals, Direction::Disable) {
        let i = choose|i: int|
            0 <= i < config.services.len() && config.is_primary(
                (#[trigger] config.services[i]).name,
            ) && refusals.permits(
                OperationView::ConfigureStartMode {
                    service: config.services[i].name,
                    mode: assigned_mode(config, Direction::Disable, i),
                },
            );
        let reset = OperationView::ConfigureStartMode {
            service: config.services[i].name,
            mode: assigned_mode(config, Direction::Restore, i),
        };
        if all_succeed(refusals, reset_service_steps(config)) {
            assert(step_succeeds(refusals, reset_service_steps(config)[i]));
        }
        assert(refusals.permits(reset));
    }
}

/// Round trip: on a host that probes as active, a disable followed by a
/// restore that reports success and resets every service of the roster
/// leaves a host that probes as active again, whichever signals the probe
/// consults.
pub proof fn lemma_round_trip(host: HostView, config: ConfigView)
    requires
        config.coherent(),
        host.state(config) == MacroState::Active,
    ensures
        ({
            let (disabled, _) = host.toggle(config, Direction::Disable);
            let (restored, succeeded) = disabled.toggle(config, Direction::Restore);
            let outcomes = disabled.run(config, restore_steps(config)).1;
            succeeded && phase_holds(restore_steps(config), outcomes, Phase::ResetServices)
                ==> restored.state(config) == MacroState::Active
        }),
{
    let (disabled, _) = host.toggle(config, Direction::Disable);
    let (restored, succeeded) = disabled.toggle(config, Direction::Restore);
    lemma_toggle_closed_form(host, config, Direction::Disable);
    lemma_toggle_closed_form(disabled, config, Direction::Restore);
    lemma_run_closed_form(disabled, config, restore_steps(config));
    lemma_disable_effect(config, host.refusals);
    lemma_restore_effect(config, host.refusals);
    lemma_restore_verdict(config, host.refusals);
    if succeeded && all_succeed(host.refusals, reset_service_steps(config)) && start_mode_reached(
        config,
        host.refusals,
        Direction::Disable,
    ) {
        lemma_restore_reaches_start_mode(config, host.refusals);
    }
    lemma_probe_is_disjunction(config, host.readings);
    lemma_probe_is_disjunction(config, restored.readings);
}

/// Round trip on a host that refuses whole control surfaces only: there a
/// restore that reports success is enough to leave a host that probes as
/// active again.
pub proof fn lemma_round_trip_by_surface(host: HostView, config: ConfigView)
    requires
        config.coherent(),
        host.state(config) == MacroState::Active,
        host.refusals.operations.len() == 0,
    ensures
        ({
            let (disabled, _) = host.toggle(config, Direction::Disable);
            let (restored, succeeded) = disabled.toggle(config, Direction::Restore);
            succeeded ==> restored.state(config) == MacroState::Active
        }),
{
    let (disabled, _) = host.toggle(config, Direction::Disable);
    let (restored, succeeded) = disabled.toggle(config, Direction::Restore);
    lemma_toggle_closed_form(host, config, Direction::Disable);
    lemma_toggle_closed_form(disabled, config, Direction::Restore);
    lemma_disable_effect(config, host.refusals);
    lemma_restore_effect(config, host.refusals);
    lemma_restore_verdict(config, host.refusals);
    if succeeded && start_mode_reached(config, host.refusals, Direction::Disable) {
        lemma_restore_reaches_start_mode(config, host.refusals);
    }
    lemma_probe_is_disjunction(config, host.readings);
    lemma_probe_is_disjunction(config, restored.readings);
}

/// Two sets of refusals that differ at most in what they say of scheduled
/// tasks.
pub open spec fn same_but_tasks(first: Refusals, second: Refusals) -> bool {
    forall|operation: OperationView|
        !(operation is SetTaskEnabled) ==> first.permits(operation) == second.permits(operation)
}

/// Whether the steps on scheduled tasks succeed or fail, one or all of
/// them, changes neither the verdict of a toggle nor the readings it
/// leaves.
pub proof fn lemma_tasks_have_no_say(
    host: HostView,
    other: HostView,
    config: ConfigView,
    direction: Direction,
)
    requires
        other.readings == host.readings,
        same_but_tasks(host.refusals, other.refusals),
    ensures
        other.toggle(config, direction).1 == host.toggle(config, direction).1,
        other.toggle(config, direction).0.readings == host.toggle(config, direction).0.readings,
{
    let steps = plan_steps(config, direction);
    lemma_toggle_closed_form(host, config, direction);
    lemma_toggle_closed_form(other, config, direction);
    lemma_task_steps_plain(config, direction);
    assert forall|i: int| 0 <= i < steps.len() implies {
        &&& #[trigger] step_effect(config, host.refusals, steps[i]) == step_effect(
            config,
            other.refusals,
            steps[i],
        )
        &&& !(steps[i].primary is SetTaskEnabled) ==> step_succeeds(host.refusals, steps[i])
            == step_succeeds(other.refusals, steps[i])
    } by {
        lemma_plain_step(config, host.refusals, other.refusals, steps[i]);
    }
    lemma_same_effects(config, host.refusals, other.refusals, steps);
    let first = outcomes_of(host.refusals, steps);
    let second = outcomes_of(other.refusals, steps);
    assert forall|i: int|
        0 <= i < steps.len() && i < first.len() && decisive(
            direction,
            (#[trigger] steps[i]).phase,
        ) implies first[i] == second[i] by {
        assert(step_effect(config, host.refusals, steps[i]) == step_effect(
            config,
            other.refusals,
            steps[i],
        ));
        lemma_decisive_steps(config, direction, i);
    }
    lemma_verdict_independent(direction, steps, first, second);
}

/// No step of a decisive phase is a step on a scheduled task.
proof fn lemma_decisive_steps(config: ConfigView, direction: Direction, i: int)
    requires
        0 <= i < plan_steps(config, direction).len(),
        decisive(direction, plan_steps(config, direction)[i].phase),
    ensures
        !(plan_steps(config, direction)[i].primary is SetTaskEnabled),
{
}

/// A step that involves a scheduled task only as a single attempt changes
/// the same whether that attempt is carried out or not: nothing. And a step
/// that does not start with a scheduled task fares the same.
proof fn lemma_plain_step(config: ConfigView, first: Refusals, second: Refusals, step: StepView)
    requires
        same_but_tasks(first, second),
        task_step_is_plain(step),
    ensures
        step_effect(config, first, step) == step_effect(config, second, step),
        !(step.primary is SetTaskEnabled) ==> step_succeeds(first, step) == step_succeeds(
            second,
            step,
        ),
{
    if !(step.primary is SetTaskEnabled) {
        assert(first.permits(step.primary) == second.permits(step.primary));
    }
    match step.fallback {
        Some(operation) => {
            assert(first.permits(operation) == second.permits(operation));
        },
        None => {},
    }
}

/// On a host that refuses nothing every step of a toggle succeeds, and so
/// does the toggle.
pub proof fn lemma_unhindered_toggle(host: HostView, config: ConfigView, direction: Direction)
    requires
        host.refusals.none(),
    ensures
        host.toggle(config, direction).1,
        forall|i: int|
            0 <= i < plan_steps(config, direction).len() ==> #[trigger] host.run(
                config,
                plan_steps(config, direction),
            ).1[i],
{
    let steps = plan_steps(config, direction);
    lemma_toggle_closed_form(host, config, direction);
    lemma_run_closed_form(host, config, steps);
    assert forall|i: int| 0 <= i < steps.len() implies #[trigger] outcomes_of(
        host.refusals,
        steps,
    )[i] by {
        assert(host.refusals.permits(steps[i].primary));
    }
    let all = Seq::new(steps.len(), |i: int| true);
    assert(outcomes_of(host.refusals, steps) =~= all);
    assert(verdict(direction, steps, all));
}

} // verus!
