//! A plan's run on the in-memory host in closed form.
//!
//! Whether a step succeeds depends on what the host refuses, not on what it
//! holds, and what a step changes does not depend on what was there before.
//! So the result of every step can be told from the host's refusals, and the
//! readings after a whole plan are the readings before it with the plan's
//! net effect applied.

use vstd::prelude::*;
use crate::config::ConfigView;
use crate::host::{effect_of, Effect, HostView, Refusals};
use crate::plan::StepView;
use crate::probe::SnapshotView;

verus! {

/// Whether a step succeeds on a host with the given refusals: its first
/// attempt is carried out, or it has a second one that is.
pub open spec fn step_succeeds(refusals: Refusals, step: StepView) -> bool {
    refusals.permits(step.primary) || match step.fallback {
        Some(second) => refusals.permits(second),
        None => false,
    }
}

/// What a step changes on a host with the given refusals: the effect of the
/// attempt that is carried out, if one is.
pub open spec fn step_effect(config: ConfigView, refusals: Refusals, step: StepView) -> Effect {
    if refusals.permits(step.primary) {
        effect_of(config, step.primary)
    } else {
        match step.fallback {
            Some(second) => if refusals.permits(second) {
                effect_of(config, second)
            } else {
                Effect::nothing()
            },
            None => Effect::nothing(),
        }
    }
}

/// The results of the steps of a plan, in order.
pub open spec fn outcomes_of(refusals: Refusals, steps: Seq<StepView>) -> Seq<bool> {
    Seq::new(steps.len(), |i: int| step_succeeds(refusals, steps[i]))
}

/// What a plan changes as a whole: the effects of its steps, one after the
/// other.
pub open spec fn net_effect(config: ConfigView, refusals: Refusals, steps: Seq<StepView>) -> Effect
    decreases steps.len(),
{
    if steps.len() == 0 {
        Effect::nothing()
    } else {
        net_effect(config, refusals, steps.drop_last()).before(
            step_effect(config, refusals, steps.last()),
        )
    }
}

/// Applying two effects in turn is applying the first followed by the
/// second, and applying an effect a second time changes nothing more.
pub proof fn lemma_effect_laws(first: Effect, second: Effect, readings: SnapshotView)
    ensures
        first.before(second).apply(readings) == second.apply(first.apply(readings)),
        first.apply(first.apply(readings)) == first.apply(readings),
        Effect::nothing().apply(readings) == readings,
        first.before(Effect::nothing()) == first,
        Effect::nothing().before(first) == first,
{
}

/// The run of a plan in closed form: the refusals stay, the readings take
/// the plan's net effect, and each step's result is told by the refusals.
pub proof fn lemma_run_closed_form(host: HostView, config: ConfigView, steps: Seq<StepView>)
    ensures
        host.run(config, steps) == (
            HostView {
                readings: net_effect(config, host.refusals, steps).apply(host.readings),
                refusals: host.refusals,
            },
            outcomes_of(host.refusals, steps),
        ),
    decreases steps.len(),
{
    if steps.len() == 0 {
        assert(outcomes_of(host.refusals, steps) =~= Seq::<bool>::empty());
    } else {
        let shorter = steps.drop_last();
        lemma_run_closed_form(host, config, shorter);
        let (before, outcomes) = host.run(config, shorter);
        let last = steps.last();
        lemma_effect_laws(
            net_effect(config, host.refusals, shorter),
            step_effect(config, host.refusals, last),
            host.readings,
        );
        assert(outcomes_of(host.refusals, steps) =~= outcomes.push(
            step_succeeds(host.refusals, last),
        ));
    }
}

/// The net effect of two plans run one after the other.
pub proof fn lemma_net_concat(
    config: ConfigView,
    refusals: Refusals,
    first: Seq<StepView>,
    second: Seq<StepView>,
)
    ensures
        net_effect(config, refusals, first + second) == net_effect(config, refusals, first).before(
            net_effect(config, refusals, second),
        ),
    decreases second.len(),
{
    if second.len() == 0 {
        assert(first + second =~= first);
    } else {
        assert((first + second).drop_last() =~= first + second.drop_last());
        assert((first + second).last() == second.last());
        lemma_net_concat(config, refusals, first, second.drop_last());
    }
}

/// The net effect of a plan of one step.
pub proof fn lemma_net_single(config: ConfigView, refusals: Refusals, step: StepView)
    ensures
        net_effect(config, refusals, seq![step]) == step_effect(config, refusals, step),
{
    let steps = seq![step];
    assert(steps.drop_last().len() == 0);
    assert(net_effect(config, refusals, steps.drop_last()) == Effect::nothing());
    assert(steps.last() == step);
}

/// What holds of no change at all, holds of every step's effect and is kept
/// when one effect follows another, holds of the net effect of the plan.
pub proof fn lemma_net_keeps(
    config: ConfigView,
    refusals: Refusals,
    steps: Seq<StepView>,
    kept: spec_fn(Effect) -> bool,
)
    requires
        kept(Effect::nothing()),
        forall|a: Effect, b: Effect| kept(a) && kept(b) ==> #[trigger] kept(a.before(b)),
        forall|i: int|
            0 <= i < steps.len() ==> kept(#[trigger] step_effect(config, refusals, steps[i])),
    ensures
        kept(net_effect(config, refusals, steps)),
    decreases steps.len(),
{
    if steps.len() > 0 {
        let shorter = steps.drop_last();
        assert forall|i: int| 0 <= i < shorter.len() implies kept(
            #[trigger] step_effect(config, refusals, shorter[i]),
        ) by {
            assert(shorter[i] == steps[i]);
        }
        lemma_net_keeps(config, refusals, shorter, kept);
        assert(kept(step_effect(config, refusals, steps[steps.len() - 1])));
    }
}

/// A reading that one step of a plan changes is changed by the plan.
pub proof fn lemma_net_touches(config: ConfigView, refusals: Refusals, steps: Seq<StepView>, at: int)
    requires
        0 <= at < steps.len(),
    ensures
        step_effect(config, refusals, steps[at]).policy_flag.is_some() ==> net_effect(
            config,
            refusals,
            steps,
        ).policy_flag.is_some(),
        step_effect(config, refusals, steps[at]).image_path.is_some() ==> net_effect(
            config,
            refusals,
            steps,
        ).image_path.is_some(),
        step_effect(config, refusals, steps[at]).start_value.is_some() ==> net_effect(
            config,
            refusals,
            steps,
        ).start_value.is_some(),
    decreases steps.len(),
{
    if at < steps.len() - 1 {
        assert(steps.drop_last()[at] == steps[at]);
        lemma_net_touches(config, refusals, steps.drop_last(), at);
    }
}

/// Plans whose steps change the same under two sets of refusals change the
/// same as a whole.
pub proof fn lemma_same_effects(
    config: ConfigView,
    first: Refusals,
    second: Refusals,
    steps: Seq<StepView>,
)
    requires
        forall|i: int|
            0 <= i < steps.len() ==> #[trigger] step_effect(config, first, steps[i])
                == step_effect(config, second, steps[i]),
    ensures
        net_effect(config, first, steps) == net_effect(config, second, steps),
    decreases steps.len(),
{
    if steps.len() > 0 {
        let shorter = steps.drop_last();
        assert forall|i: int| 0 <= i < shorter.len() implies #[trigger] step_effect(
            config,
            first,
            shorter[i],
        ) == step_effect(config, second, shorter[i]) by {
            assert(shorter[i] == steps[i]);
        }
        lemma_same_effects(config, first, second, shorter);
        assert(step_effect(config, first, steps[steps.len() - 1]) == step_effect(
            config,
            second,
            steps[steps.len() - 1],
        ));
    }
}

} // verus!
