//! The orchestrator's guarantees, proved as theorems over the plan and run
//! model.

use crate::config::{AudioInterfaceView, ConfigView};
use crate::orchestrator::{
    spec_interface_start_steps, spec_interface_stop_steps, spec_start_plan, spec_start_shape_step,
    spec_stop_plan, spec_stop_shape_step, PlanStepView, StepActionView, StepPolicy,
};
use crate::run::{lemma_lenient_run_never_aborts, lemma_run_attempts_all, run_aborts,
    steps_attempted};
use crate::setup::SetupConfigView;
use crate::table::find_entry;
use vstd::prelude::*;

verus! {

/// A failing interface-unit activation blocks every shape.
///
/// When the setup's interface is found and backed by a unit, the
/// activation plan opens with the unit start, and that step is fatal: if
/// the service manager reports failure for it, the run aborts after that
/// single step, so no shape step is ever attempted, whatever the remaining
/// outcomes would have been.
pub proof fn lemma_interface_failure_blocks_shapes(
    c: ConfigView,
    s: SetupConfigView,
    iface: AudioInterfaceView,
    unit: Seq<char>,
    outcomes: Seq<bool>,
)
    requires
        find_entry(c.audio.interfaces, s.setup.interface) == Some(iface),
        iface.unit == Some(unit),
        outcomes.len() > 0,
        !outcomes[0],
    ensures
        spec_start_plan(c, s)[0] == (PlanStepView {
            action: StepActionView::StartInterfaceUnit { unit },
            policy: StepPolicy::Fatal,
        }),
        run_aborts(spec_start_plan(c, s), outcomes),
        steps_attempted(spec_start_plan(c, s), outcomes) == 1,
{
    let plan = spec_start_plan(c, s);
    let prefix = spec_interface_start_steps(iface);
    assert(prefix.len() == 1);
    assert(plan[0] == prefix[0]);
}

/// Activation walks every declared shape, in declared order, found or not.
///
/// As long as no fatal step fails — and the only fatal step is the unit
/// start — the whole activation plan is attempted: one step per declared
/// shape name, standing in declared order after the unit prefix.  A name
/// missing from the shape table yields a logged skip at its position and
/// blocks nothing.
pub proof fn lemma_start_attempts_every_shape(
    c: ConfigView,
    s: SetupConfigView,
    outcomes: Seq<bool>,
)
    requires
        find_entry(c.audio.interfaces, s.setup.interface) is Some,
        outcomes.len() >= spec_start_plan(c, s).len(),
        !run_aborts(spec_start_plan(c, s), outcomes),
    ensures
        steps_attempted(spec_start_plan(c, s), outcomes) == spec_start_plan(c, s).len(),
        ({
            let plan = spec_start_plan(c, s);
            let off = plan.len() - s.setup.shapes.len();
            forall|k: int|
                0 <= k < s.setup.shapes.len() ==> plan[off + k] == spec_start_shape_step(
                    s.shapes,
                    s.setup.shapes[k],
                )
        }),
{
    let plan = spec_start_plan(c, s);
    lemma_run_attempts_all(plan, outcomes);
    match find_entry(c.audio.interfaces, s.setup.interface) {
        Some(iface) => {
            let prefix = spec_interface_start_steps(iface);
            let rest = Seq::new(
                s.setup.shapes.len(),
                |k: int| spec_start_shape_step(s.shapes, s.setup.shapes[k]),
            );
            assert(plan == prefix + rest);
            let off = plan.len() - s.setup.shapes.len();
            assert(off == prefix.len());
            assert forall|k: int|
                0 <= k < s.setup.shapes.len() implies plan[off + k] == spec_start_shape_step(
                s.shapes,
                s.setup.shapes[k],
            ) by {
                assert((prefix + rest)[off + k] == rest[k]);
            }
        },
        None => {},
    }
}

/// Deactivation walks the declared shapes in exact reverse order and ends
/// with the interface unit.
///
/// The `k`-th stop step handles the `k`-th shape name counted from the end
/// of the declared order, and when the interface is found and backed by a
/// unit, the final step of the plan — after every shape — asks the service
/// manager to stop that unit.
pub proof fn lemma_stop_reverses_order_and_ends_with_unit(c: ConfigView, s: SetupConfigView)
    ensures
        spec_stop_plan(c, s).len() >= s.setup.shapes.len(),
        forall|k: int|
            0 <= k < s.setup.shapes.len() ==> spec_stop_plan(c, s)[k] == spec_stop_shape_step(
                s.shapes,
                s.setup.shapes[s.setup.shapes.len() - 1 - k],
            ),
        (match find_entry(c.audio.interfaces, s.setup.interface) {
            Some(iface) => match iface.unit {
                Some(unit) => spec_stop_plan(c, s).len() == s.setup.shapes.len() + 1
                    && spec_stop_plan(c, s).last() == (PlanStepView {
                    action: StepActionView::StopInterfaceUnit { unit },
                    policy: StepPolicy::LogAndContinue,
                }),
                None => spec_stop_plan(c, s).len() == s.setup.shapes.len(),
            },
            None => spec_stop_plan(c, s).len() == s.setup.shapes.len(),
        }),
{
    let plan = spec_stop_plan(c, s);
    let rest = Seq::new(
        s.setup.shapes.len(),
        |k: int| spec_stop_shape_step(s.shapes, s.setup.shapes[s.setup.shapes.len() - 1 - k]),
    );
    let suffix = spec_interface_stop_steps(find_entry(c.audio.interfaces, s.setup.interface));
    assert(plan == rest + suffix);
    assert forall|k: int| 0 <= k < s.setup.shapes.len() implies plan[k] == rest[k] by {
        assert((rest + suffix)[k] == rest[k]);
    }
}

/// Deactivation never raises a fatal error, however much or little there
/// is to stop and however the individual operations fare.
///
/// Every step of a stop plan is lenient, so the run never aborts; and with
/// an outcome for every step, every step is attempted — in particular the
/// closing interface-unit stop is reached regardless of any shape failure
/// before it.  Stopping an already stopped setup only walks the same
/// always-lenient steps again, so repeating a stop is equally fatal-free.
pub proof fn lemma_stop_run_never_aborts(c: ConfigView, s: SetupConfigView, outcomes: Seq<bool>)
    ensures
        !run_aborts(spec_stop_plan(c, s), outcomes),
        outcomes.len() >= spec_stop_plan(c, s).len() ==> steps_attempted(
            spec_stop_plan(c, s),
            outcomes,
        ) == spec_stop_plan(c, s).len(),
{
    let plan = spec_stop_plan(c, s);
    let rest = Seq::new(
        s.setup.shapes.len(),
        |k: int| spec_stop_shape_step(s.shapes, s.setup.shapes[s.setup.shapes.len() - 1 - k]),
    );
    let suffix = spec_interface_stop_steps(find_entry(c.audio.interfaces, s.setup.interface));
    assert(plan == rest + suffix);
    assert forall|i: int| 0 <= i < plan.len() implies plan[i].policy is LogAndContinue by {
        if i < rest.len() {
            assert(plan[i] == rest[i]);
        } else {
            assert(plan[i] == suffix[i - rest.len()]);
        }
    }
    lemma_lenient_run_never_aborts(plan, outcomes);
    if outcomes.len() >= plan.len() {
        lemma_run_attempts_all(plan, outcomes);
    }
}

} // verus!
