//! What the two plans do to the in-memory host, read off their steps: which
//! steps decide a phase, what each part of a plan changes in the readings,
//! and from there the verdict and the net effect of a whole toggle in terms
//! of what the host refuses.

use vstd::prelude::*;
use crate::config::ConfigView;
use crate::effects::{
    lemma_net_concat, lemma_net_keeps, lemma_net_single, lemma_net_touches, net_effect,
    outcomes_of, step_effect, step_succeeds,
};
use crate::engine::{phase_holds, phase_present, verdict};
use crate::host::{Effect, Refusals};
use crate::model::{Direction, PolicyValueView, StartMode};
use crate::plan::{
    corrupt_steps, disable_service_steps, disable_steps, disable_task_steps, enable_task_steps,
    path_restore_steps, plan_steps, policy_clear_steps, policy_write_steps, refresh_steps,
    reset_service_steps, restore_steps, stop_steps, OperationView, Phase, StepView,
};

verus! {

/// Whether every step of a part of a plan succeeds.
pub open spec fn all_succeed(refusals: Refusals, steps: Seq<StepView>) -> bool {
    forall|i: int| 0 <= i < steps.len() ==> step_succeeds(refusals, #[trigger] steps[i])
}

/// The operation that stores a number where the no-automatic-update flag is.
pub open spec fn flag_write(config: ConfigView, number: u32) -> OperationView {
    OperationView::WritePolicy {
        key_path: config.flag_key,
        value_name: config.flag_name,
        value: PolicyValueView::Dword(number),
    }
}

/// The operation that stores an executable path in the control entry of the
/// primary service.
pub open spec fn path_write(config: ConfigView, path: Seq<char>) -> OperationView {
    OperationView::WriteImagePath { service: config.primary_service, path }
}

/// The operation that stores a start mode in the control entry of the
/// primary service.
pub open spec fn start_write(config: ConfigView, mode: StartMode) -> OperationView {
    OperationView::WriteStartMode { service: config.primary_service, mode }
}

/// The start mode that a toggle assigns to the service at a place of the
/// roster.
pub open spec fn assigned_mode(config: ConfigView, direction: Direction, place: int) -> StartMode {
    match direction {
        Direction::Disable => StartMode::Disabled,
        Direction::Restore => config.services[place].start_mode,
    }
}

/// Whether a toggle reaches the start mode of the primary service through
/// the service-control utility: the roster names the service at some place,
/// and the assignment for that place is carried out.
pub open spec fn start_mode_configured(
    config: ConfigView,
    refusals: Refusals,
    direction: Direction,
) -> bool {
    exists|i: int|
        0 <= i < config.services.len() && config.is_primary((#[trigger] config.services[i]).name)
            && refusals.permits(
            OperationView::ConfigureStartMode {
                service: config.services[i].name,
                mode: assigned_mode(config, direction, i),
            },
        )
}

/// Whether a toggle reaches the start mode of the primary service at all:
/// through the service-control utility, or through the control entry where
/// the configuration corrupts the path.
pub open spec fn start_mode_reached(
    config: ConfigView,
    refusals: Refusals,
    direction: Direction,
) -> bool {
    start_mode_configured(config, refusals, direction) || (config.corrupt_path
        && refusals.permits(
        start_write(
            config,
            match direction {
                Direction::Disable => StartMode::Disabled,
                Direction::Restore => StartMode::Demand,
            },
        ),
    ))
}

/// A phase that makes up one stretch of a plan holds exactly if every step
/// of the stretch succeeds, and is present exactly if the stretch is not
/// empty.
proof fn lemma_phase_of_stretch(
    refusals: Refusals,
    before: Seq<StepView>,
    stretch: Seq<StepView>,
    after: Seq<StepView>,
    phase: Phase,
)
    requires
        forall|i: int| 0 <= i < stretch.len() ==> (#[trigger] stretch[i]).phase == phase,
        forall|i: int| 0 <= i < before.len() ==> (#[trigger] before[i]).phase != phase,
        forall|i: int| 0 <= i < after.len() ==> (#[trigger] after[i]).phase != phase,
    ensures
        phase_holds(
            before + stretch + after,
            outcomes_of(refusals, before + stretch + after),
            phase,
        ) == all_succeed(refusals, stretch),
        phase_present(before + stretch + after, phase) == (stretch.len() > 0),
{
    let plan = before + stretch + after;
    let outcomes = outcomes_of(refusals, plan);
    let start = before.len() as int;
    let end = start + stretch.len();
    assert forall|i: int| 0 <= i < plan.len() && (#[trigger] plan[i]).phase == phase implies start
        <= i < end by {
        if i < start {
            assert(plan[i] == before[i]);
        } else if i >= end {
            assert(plan[i] == after[i - end]);
        }
    }
    assert forall|j: int| 0 <= j < stretch.len() implies plan[start + j] == #[trigger] stretch[j] by {}
    if all_succeed(refusals, stretch) {
        assert forall|i: int|
            0 <= i < plan.len() && i < outcomes.len() && (#[trigger] plan[i]).phase
                == phase implies outcomes[i] by {
            assert(plan[i] == stretch[i - start]);
        }
    }
    if phase_holds(plan, outcomes, phase) {
        assert forall|j: int| 0 <= j < stretch.len() implies step_succeeds(
            refusals,
            #[trigger] stretch[j],
        ) by {
            assert(plan[start + j].phase == phase);
            assert(outcomes[start + j]);
        }
    }
    if stretch.len() > 0 {
        assert(plan[start].phase == phase);
    }
}

/// The verdict of a disable on a host: every policy write succeeds, or the
/// configuration corrupts the path and both steps of that succeed.
pub proof fn lemma_disable_verdict(config: ConfigView, refusals: Refusals)
    ensures
        verdict(
            Direction::Disable,
            disable_steps(config),
            outcomes_of(refusals, disable_steps(config)),
        ) == (all_succeed(refusals, policy_write_steps(config)) || (config.corrupt_path
            && all_succeed(refusals, corrupt_steps(config)))),
        all_succeed(refusals, policy_write_steps(config)) ==> refusals.permits(
            flag_write(config, 1),
        ),
        config.corrupt_path && all_succeed(refusals, corrupt_steps(config)) ==> refusals.permits(
            path_write(config, config.corrupted_path),
        ),
{
    let stops = stop_steps(config);
    let corrupts = corrupt_steps(config);
    let writes = policy_write_steps(config);
    let modes = disable_service_steps(config);
    let tasks = disable_task_steps(config);
    assert(disable_steps(config) =~= (stops + corrupts) + writes + (modes + tasks));
    lemma_phase_of_stretch(refusals, stops + corrupts, writes, modes + tasks, Phase::WritePolicy);
    assert(disable_steps(config) =~= stops + corrupts + (writes + modes + tasks));
    lemma_phase_of_stretch(refusals, stops, corrupts, writes + modes + tasks, Phase::CorruptPath);
    if all_succeed(refusals, writes) {
        assert(step_succeeds(refusals, writes[0]));
    }
    if config.corrupt_path && all_succeed(refusals, corrupts) {
        assert(step_succeeds(refusals, corrupts[0]));
    }
}

/// The verdict of a restore on a host: every step that clears the policy
/// succeeds and, where the configuration corrupts the path, so do both
/// steps that restore it.
pub proof fn lemma_restore_verdict(config: ConfigView, refusals: Refusals)
    ensures
        verdict(
            Direction::Restore,
            restore_steps(config),
            outcomes_of(refusals, restore_steps(config)),
        ) == (all_succeed(refusals, policy_clear_steps(config)) && all_succeed(
            refusals,
            path_restore_steps(config),
        )),
        phase_holds(
            restore_steps(config),
            outcomes_of(refusals, restore_steps(config)),
            Phase::ResetServices,
        ) == all_succeed(refusals, reset_service_steps(config)),
        all_succeed(refusals, policy_clear_steps(config)) ==> refusals.permits(
            flag_write(config, 0),
        ),
        config.corrupt_path && all_succeed(refusals, path_restore_steps(config))
            ==> refusals.permits(path_write(config, config.genuine_path)) && refusals.permits(
            start_write(config, StartMode::Demand),
        ),
{
    let clears = policy_clear_steps(config);
    let paths = path_restore_steps(config);
    let refreshes = refresh_steps();
    let modes = reset_service_steps(config);
    let tasks = enable_task_steps(config);
    let none = Seq::<StepView>::empty();
    assert(restore_steps(config) =~= none + clears + (paths + refreshes + modes + tasks));
    lemma_phase_of_stretch(
        refusals,
        none,
        clears,
        paths + refreshes + modes + tasks,
        Phase::ClearPolicy,
    );
    assert(restore_steps(config) =~= clears + paths + (refreshes + modes + tasks));
    lemma_phase_of_stretch(refusals, clears, paths, refreshes + modes + tasks, Phase::RestorePath);
    assert(restore_steps(config) =~= (clears + paths + refreshes) + modes + tasks);
    lemma_phase_of_stretch(refusals, clears + paths + refreshes, modes, tasks, Phase::ResetServices);
    if all_succeed(refusals, clears) {
        assert(step_succeeds(refusals, clears[0]));
    }
    if config.corrupt_path && all_succeed(refusals, paths) {
        assert(step_succeeds(refusals, paths[0]));
        assert(step_succeeds(refusals, paths[1]));
    }
}

/// A part of a plan none of whose steps changes a reading changes none.
proof fn lemma_quiet(config: ConfigView, refusals: Refusals, steps: Seq<StepView>)
    requires
        forall|i: int|
            0 <= i < steps.len() ==> #[trigger] step_effect(config, refusals, steps[i])
                == Effect::nothing(),
    ensures
        net_effect(config, refusals, steps) == Effect::nothing(),
{
    lemma_net_keeps(config, refusals, steps, |e: Effect| e == Effect::nothing());
}

/// A part of two steps changes what the first changes, then what the second
/// changes.
proof fn lemma_net_pair(config: ConfigView, refusals: Refusals, first: StepView, second: StepView)
    ensures
        net_effect(config, refusals, seq![first, second]) == step_effect(
            config,
            refusals,
            first,
        ).before(step_effect(config, refusals, second)),
{
    assert(seq![first, second] =~= seq![first] + seq![second]);
    lemma_net_concat(config, refusals, seq![first], seq![second]);
    lemma_net_single(config, refusals, first);
    lemma_net_single(config, refusals, second);
}

/// What the service-control steps of either plan change: nothing but the
/// start mode, and that exactly when the roster names the primary service
/// at a place whose assignment is carried out.
proof fn lemma_service_steps(config: ConfigView, refusals: Refusals, direction: Direction)
    requires
        direction == Direction::Disable || config.coherent(),
    ensures
        ({
            let steps = match direction {
                Direction::Disable => disable_service_steps(config),
                Direction::Restore => reset_service_steps(config),
            };
            let effect = net_effect(config, refusals, steps);
            &&& effect.policy_flag.is_none()
            &&& effect.image_path.is_none()
            &&& effect.start_value.is_some() == start_mode_configured(config, refusals, direction)
            &&& match effect.start_value {
                Some(value) => value.is_some() && (value == Some(4u32)) == (direction
                    == Direction::Disable),
                None => true,
            }
        }),
{
    let steps = match direction {
        Direction::Disable => disable_service_steps(config),
        Direction::Restore => reset_service_steps(config),
    };
    let kept = |e: Effect|
        e.policy_flag.is_none() && e.image_path.is_none() && match e.start_value {
            Some(value) => value.is_some() && (value == Some(4u32)) == (direction
                == Direction::Disable) && start_mode_configured(config, refusals, direction),
            None => true,
        };
    assert forall|i: int| 0 <= i < steps.len() implies kept(
        #[trigger] step_effect(config, refusals, steps[i]),
    ) by {
        if config.is_primary(config.services[i].name) && refusals.permits(steps[i].primary) {
            assert(steps[i].primary == OperationView::ConfigureStartMode {
                service: config.services[i].name,
                mode: assigned_mode(config, direction, i),
            });
        }
    }
    lemma_net_keeps(config, refusals, steps, kept);
    if start_mode_configured(config, refusals, direction) {
        let i = choose|i: int|
            0 <= i < config.services.len() && config.is_primary(
                (#[trigger] config.services[i]).name,
            ) && refusals.permits(
                OperationView::ConfigureStartMode {
                    service: config.services[i].name,
                    mode: assigned_mode(config, direction, i),
                },
            );
        assert(steps[i].primary == OperationView::ConfigureStartMode {
            service: config.services[i].name,
            mode: assigned_mode(config, direction, i),
        });
        lemma_net_touches(config, refusals, steps, i);
    }
}

/// What a disable changes in the readings of a host with the given
/// refusals: the flag is set if its write is carried out, the path is
/// corrupted if the configuration says so and its write is carried out, and
/// the start mode reads as disabled if the toggle reaches it.
pub proof fn lemma_disable_effect(config: ConfigView, refusals: Refusals)
    requires
        config.coherent(),
    ensures
        net_effect(config, refusals, disable_steps(config)) == (Effect {
            policy_flag: if refusals.permits(flag_write(config, 1)) {
                Some(Some(1u32))
            } else {
                None
            },
            image_path: if config.corrupt_path && refusals.permits(
                path_write(config, config.corrupted_path),
            ) {
                Some(Some(config.corrupted_path))
            } else {
                None
            },
            start_value: if start_mode_reached(config, refusals, Direction::Disable) {
                Some(Some(4u32))
            } else {
                None
            },
        }),
{
    let stops = stop_steps(config);
    let corrupts = corrupt_steps(config);
    let writes = policy_write_steps(config);
    let modes = disable_service_steps(config);
    let tasks = disable_task_steps(config);
    lemma_net_concat(config, refusals, stops + corrupts + writes + modes, tasks);
    lemma_net_concat(config, refusals, stops + corrupts + writes, modes);
    lemma_net_concat(config, refusals, stops + corrupts, writes);
    lemma_net_concat(config, refusals, stops, corrupts);
    lemma_quiet(config, refusals, stops);
    lemma_quiet(config, refusals, tasks);
    if config.corrupt_path {
        lemma_net_pair(config, refusals, corrupts[0], corrupts[1]);
        assert(corrupts =~= seq![corrupts[0], corrupts[1]]);
    }
    let further = writes.subrange(1, writes.len() as int);
    assert(writes =~= seq![writes[0]] + further);
    lemma_net_concat(config, refusals, seq![writes[0]], further);
    lemma_net_single(config, refusals, writes[0]);
    assert forall|i: int| 0 <= i < further.len() implies #[trigger] step_effect(
        config,
        refusals,
        further[i],
    ) == Effect::nothing() by {
        assert(further[i] == writes[i + 1]);
        assert(!config.is_flag(config.policies[i].key_path, config.policies[i].value_name));
    }
    lemma_quiet(config, refusals, further);
    lemma_service_steps(config, refusals, Direction::Disable);
}

/// What a restore changes in the readings of a host with the given
/// refusals: the flag no longer reads as set if its write is carried out,
/// the genuine path is back if the configuration corrupts the path and its
/// write is carried out, and the start mode does not read as disabled if
/// the toggle reaches it.
pub proof fn lemma_restore_effect(config: ConfigView, refusals: Refusals)
    requires
        config.coherent(),
    ensures
        refusals.permits(flag_write(config, 0)) ==> net_effect(
            config,
            refusals,
            restore_steps(config),
        ).policy_flag.is_some(),
        net_effect(config, refusals, restore_steps(config)).policy_flag != Some(Some(1u32)),
        net_effect(config, refusals, restore_steps(config)).image_path == if config.corrupt_path
            && refusals.permits(path_write(config, config.genuine_path)) {
            Some(Some(config.genuine_path))
        } else {
            None
        },
        net_effect(config, refusals, restore_steps(config)).start_value.is_some()
            == start_mode_reached(config, refusals, Direction::Restore),
        match net_effect(config, refusals, restore_steps(config)).start_value {
            Some(value) => value.is_some() && value != Some(4u32),
            None => true,
        },
{
    let clears = policy_clear_steps(config);
    let paths = path_restore_steps(config);
    let refreshes = refresh_steps();
    let modes = reset_service_steps(config);
    let tasks = enable_task_steps(config);
    lemma_net_concat(config, refusals, clears + paths + refreshes + modes, tasks);
    lemma_net_concat(config, refusals, clears + paths + refreshes, modes);
    lemma_net_concat(config, refusals, clears + paths, refreshes);
    lemma_net_concat(config, refusals, clears, paths);
    lemma_quiet(config, refusals, refreshes);
    lemma_quiet(config, refusals, tasks);
    if config.corrupt_path {
        lemma_net_pair(config, refusals, paths[0], paths[1]);
        assert(paths =~= seq![paths[0], paths[1]]);
    }
    let count = config.policies.len() as int;
    let deletes = clears.subrange(1, count + 1);
    let purge = clears.subrange(count + 1, clears.len() as int);
    assert(clears =~= seq![clears[0]] + deletes + purge);
    lemma_net_concat(config, refusals, seq![clears[0]] + deletes, purge);
    lemma_net_concat(config, refusals, seq![clears[0]], deletes);
    lemma_net_single(config, refusals, clears[0]);
    assert forall|i: int| 0 <= i < deletes.len() implies #[trigger] step_effect(
        config,
        refusals,
        deletes[i],
    ) == Effect::nothing() by {
        assert(deletes[i] == clears[i + 1]);
        assert(!config.is_flag(config.policies[i].key_path, config.policies[i].value_name));
    }
    lemma_quiet(config, refusals, deletes);
    if config.purge_policy_root {
        assert(purge =~= seq![clears[count + 1]]);
        lemma_net_single(config, refusals, clears[count + 1]);
    }
    lemma_service_steps(config, refusals, Direction::Restore);
}

/// A step that has nothing to do with scheduled tasks, or is a single
/// attempt to enable or disable one.
pub open spec fn task_step_is_plain(step: StepView) -> bool {
    &&& step.primary is SetTaskEnabled ==> step.fallback.is_none()
    &&& match step.fallback {
        Some(second) => !(second is SetTaskEnabled),
        None => true,
    }
}

/// No plan mixes a scheduled task with another operation in one step.
pub proof fn lemma_task_steps_plain(config: ConfigView, direction: Direction)
    ensures
        forall|i: int|
            0 <= i < plan_steps(config, direction).len() ==> task_step_is_plain(
                #[trigger] plan_steps(config, direction)[i],
            ),
{
}

} // verus!
