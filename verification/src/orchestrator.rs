//! The setup lifecycle orchestrator.
//!
//! Activation and deactivation are each computed as an explicit ordered
//! plan of steps.  A step carries the policy applied when it fails: the
//! interface unit is a prerequisite for every shape, so its activation is
//! fatal, while every other step is logged and the run continues.  The
//! caller performs each step's outside work (the service-manager round
//! trip) and reports the outcome to a [`SetupRun`], which applies the
//! policy.

use crate::config::{AudioInterfaceView, Config, ConfigView};
use crate::errors::{LauncherError, LauncherErrorView};
use crate::setup::{SetupConfig, SetupConfigView, ShapeConfig, ShapeConfigView};
use crate::table::find_entry;
use vstd::prelude::*;

verus! {

/// What happens when a step fails: the whole run aborts, or the failure is
/// logged and the run continues with the next step.
#[derive(Clone, Copy, Debug, PartialEq, Eq, Structural)]
pub enum StepPolicy {
    Fatal,
    LogAndContinue,
}

/// One orchestration action.
#[derive(Debug)]
pub enum StepAction {
    /// Ask the service manager to start the interface's unit.
    StartInterfaceUnit { unit: String },
    /// Ask the service manager to stop the interface's unit.
    StopInterfaceUnit { unit: String },
    /// Activate a shape: hand its image and environment to the container
    /// runtime.
    StartShape { name: String, shape: ShapeConfig },
    /// Deactivate a shape.
    StopShape { name: String, shape: ShapeConfig },
    /// A shape name with no entry in the shape table: logged and skipped.
    SkipMissingShape { name: String },
}

/// The mathematical image of a `StepAction`.
pub enum StepActionView {
    StartInterfaceUnit { unit: Seq<char> },
    StopInterfaceUnit { unit: Seq<char> },
    StartShape { name: Seq<char>, shape: ShapeConfigView },
    StopShape { name: Seq<char>, shape: ShapeConfigView },
    SkipMissingShape { name: Seq<char> },
}

/// One step of a plan: an action and the policy applied when it fails.
#[derive(Debug)]
pub struct PlanStep {
    pub action: StepAction,
    pub policy: StepPolicy,
}

/// The mathematical image of a `PlanStep`.
pub struct PlanStepView {
    pub action: StepActionView,
    pub policy: StepPolicy,
}

/// An ordered activation or deactivation sequence.
#[derive(Debug)]
pub struct Plan {
    pub steps: Vec<PlanStep>,
}

impl View for StepAction {
    type V = StepActionView;

    open spec fn view(&self) -> StepActionView {
        match self {
            StepAction::StartInterfaceUnit { unit } => (StepActionView::StartInterfaceUnit {
                unit: unit@,
            }),
            StepAction::StopInterfaceUnit { unit } => (StepActionView::StopInterfaceUnit {
                unit: unit@,
            }),
            StepAction::StartShape { name, shape } => (StepActionView::StartShape {
                name: name@,
                shape: shape@,
            }),
            StepAction::StopShape { name, shape } => (StepActionView::StopShape {
                name: name@,
                shape: shape@,
            }),
            StepAction::SkipMissingShape { name } => (StepActionView::SkipMissingShape {
                name: name@,
            }),
        }
    }
}

impl View for PlanStep {
    type V = PlanStepView;

    open spec fn view(&self) -> PlanStepView {
        PlanStepView { action: self.action@, policy: self.policy }
    }
}

impl DeepView for PlanStep {
    type V = PlanStepView;

    open spec fn deep_view(&self) -> PlanStepView {
        self.view()
    }
}

impl View for Plan {
    type V = Seq<PlanStepView>;

    open spec fn view(&self) -> Seq<PlanStepView> {
        self.steps.deep_view()
    }
}

/// The step that activates the shape named `name`: its recorded image and
/// environment when the shape table has an entry, else the logged skip.
/// Either way the step is lenient: one shape never blocks another.
pub open spec fn spec_start_shape_step(
    shapes: Seq<(Seq<char>, ShapeConfigView)>,
    name: Seq<char>,
) -> PlanStepView {
    match find_entry(shapes, name) {
        Some(shape) => (PlanStepView {
            action: StepActionView::StartShape { name, shape },
            policy: StepPolicy::LogAndContinue,
        }),
        None => (PlanStepView {
            action: StepActionView::SkipMissingShape { name },
            policy: StepPolicy::LogAndContinue,
        }),
    }
}

/// The step that deactivates the shape named `name`, mirroring
/// [`spec_start_shape_step`].
pub open spec fn spec_stop_shape_step(
    shapes: Seq<(Seq<char>, ShapeConfigView)>,
    name: Seq<char>,
) -> PlanStepView {
    match find_entry(shapes, name) {
        Some(shape) => (PlanStepView {
            action: StepActionView::StopShape { name, shape },
            policy: StepPolicy::LogAndContinue,
        }),
        None => (PlanStepView {
            action: StepActionView::SkipMissingShape { name },
            policy: StepPolicy::LogAndContinue,
        }),
    }
}

/// The unit-activation prefix for `iface`: one fatal step when the
/// interface has a unit, and nothing otherwise — an absent unit means no
/// operation, not a default.
pub open spec fn spec_interface_start_steps(iface: AudioInterfaceView) -> Seq<PlanStepView> {
    match iface.unit {
        Some(unit) => seq![
            PlanStepView {
                action: StepActionView::StartInterfaceUnit { unit },
                policy: StepPolicy::Fatal,
            },
        ],
        None => Seq::empty(),
    }
}

/// The unit-deactivation suffix: one lenient step when the interface is
/// found and has a unit.  A missing interface or an absent unit yields no
/// step — there is nothing to stop, which is not an error.
pub open spec fn spec_interface_stop_steps(iface: Option<AudioInterfaceView>) -> Seq<
    PlanStepView,
> {
    match iface {
        Some(i) => match i.unit {
            Some(unit) => seq![
                PlanStepView {
                    action: StepActionView::StopInterfaceUnit { unit },
                    policy: StepPolicy::LogAndContinue,
                },
            ],
            None => Seq::empty(),
        },
        None => Seq::empty(),
    }
}

/// The activation sequence for a setup: first the interface unit (fatal),
/// then one lenient step per declared shape name, in declared order.
/// Meaningful when the setup's interface is found in the configuration.
pub open spec fn spec_start_plan(c: ConfigView, s: SetupConfigView) -> Seq<PlanStepView> {
    match find_entry(c.audio.interfaces, s.setup.interface) {
        Some(iface) => spec_interface_start_steps(iface) + Seq::new(
            s.setup.shapes.len(),
            |k: int| spec_start_shape_step(s.shapes, s.setup.shapes[k]),
        ),
        None => Seq::empty(),
    }
}

/// The deactivation sequence for a setup: one lenient step per declared
/// shape name in exact reverse declared order, then the interface unit
/// (lenient).  Total: a setup with nothing to stop yields the empty plan.
pub open spec fn spec_stop_plan(c: ConfigView, s: SetupConfigView) -> Seq<PlanStepView> {
    Seq::new(
        s.setup.shapes.len(),
        |k: int| spec_stop_shape_step(s.shapes, s.setup.shapes[s.setup.shapes.len() - 1 - k]),
    ) + spec_interface_stop_steps(find_entry(c.audio.interfaces, s.setup.interface))
}

/// Computes the activation plan for `setup` against `config`.
///
/// Fails with `ReferenceNotFound` exactly when the setup's interface names
/// no configured interface; no step is planned in that case — the
/// interface is a prerequisite for everything else.
pub fn plan_start(config: &Config, setup: &SetupConfig) -> (r: Result<Plan, LauncherError>)
    ensures
        (r is Ok) == (find_entry(config@.audio.interfaces, setup@.setup.interface) is Some),
        r matches Ok(plan) ==> plan@ == spec_start_plan(config@, setup@),
        r matches Err(e) ==> e@ == (LauncherErrorView::ReferenceNotFound {
            name: setup@.setup.interface,
        }),
{
    let ghost full = spec_start_plan(config@, setup@);
    let iface = match config.get_audio_interface(setup.setup.interface.as_str()) {
        Some(i) => i,
        None => {
            return Err(
                LauncherError::ReferenceNotFound { name: setup.setup.interface.clone() },
            );
        },
    };
    let ghost prefix = spec_interface_start_steps(iface@);
    let mut steps: Vec<PlanStep> = Vec::new();
    match &iface.unit {
        Some(unit) => {
            steps.push(
                PlanStep {
                    action: StepAction::StartInterfaceUnit { unit: unit.clone() },
                    policy: StepPolicy::Fatal,
                },
            );
        },
        None => {},
    }
    proof {
        let rest = Seq::new(
            setup@.setup.shapes.len(),
            |k: int| spec_start_shape_step(setup@.shapes, setup@.setup.shapes[k]),
        );
        assert(steps.deep_view() =~= prefix);
        assert(full == prefix + rest);
        assert(steps.deep_view() =~= full.take(prefix.len() as int));
        assert forall|k: int| 0 <= k < rest.len() implies full[prefix.len() + k] == rest[k] by {
            assert((prefix + rest)[prefix.len() + k] == rest[k]);
        }
    }
    push_shape_steps(&mut steps, setup, true, Ghost(full));
    Ok(Plan { steps })
}

/// Computes the deactivation plan for `setup` against `config`.
///
/// Always succeeds: a missing interface or an absent unit during stop
/// means there is nothing to stop, and the shapes are still walked.
pub fn plan_stop(config: &Config, setup: &SetupConfig) -> (r: Plan)
    ensures
        r@ == spec_stop_plan(config@, setup@),
{
    let ghost full = spec_stop_plan(config@, setup@);
    let mut steps: Vec<PlanStep> = Vec::new();
    proof {
        let rest = Seq::new(
            setup@.setup.shapes.len(),
            |k: int|
                spec_stop_shape_step(
                    setup@.shapes,
                    setup@.setup.shapes[setup@.setup.shapes.len() - 1 - k],
                ),
        );
        let suffix = spec_interface_stop_steps(
            find_entry(config@.audio.interfaces, setup@.setup.interface),
        );
        assert(full == rest + suffix);
        assert(steps.deep_view() =~= full.take(0));
        assert forall|k: int| 0 <= k < rest.len() implies full[k] == rest[k] by {
            assert((rest + suffix)[k] == rest[k]);
        }
    }
    push_shape_steps(&mut steps, setup, false, Ghost(full));
    let ghost walked = steps.deep_view();
    match config.get_audio_interface(setup.setup.interface.as_str()) {
        Some(iface) => {
            match &iface.unit {
                Some(unit) => {
                    steps.push(
                        PlanStep {
                            action: StepAction::StopInterfaceUnit { unit: unit.clone() },
                            policy: StepPolicy::LogAndContinue,
                        },
                    );
                    proof {
                        assert(steps.deep_view() =~= walked.push(
                            PlanStepView {
                                action: StepActionView::StopInterfaceUnit { unit: unit@ },
                                policy: StepPolicy::LogAndContinue,
                            },
                        ));
                        assert(steps.deep_view() =~= full);
                    }
                },
                None => {
                    proof {
                        assert(steps.deep_view() =~= full);
                    }
                },
            }
        },
        None => {
            proof {
                assert(steps.deep_view() =~= full);
            }
        },
    }
    Plan { steps }
}

/// Appends one step per declared shape name: in declared order for
/// activation, in exact reverse order for deactivation.
fn push_shape_steps(
    steps: &mut Vec<PlanStep>,
    setup: &SetupConfig,
    starting: bool,
    full: Ghost<Seq<PlanStepView>>,
)
    requires
        old(steps).deep_view().len() + setup@.setup.shapes.len() <= full@.len(),
        old(steps).deep_view() == full@.take(old(steps).deep_view().len() as int),
        forall|k: int|
            0 <= k < setup@.setup.shapes.len() ==> full@[old(steps).deep_view().len() + k]
                == if starting {
                spec_start_shape_step(setup@.shapes, setup@.setup.shapes[k])
            } else {
                spec_stop_shape_step(
                    setup@.shapes,
                    setup@.setup.shapes[setup@.setup.shapes.len() - 1 - k],
                )
            },
    ensures
        final(steps).deep_view() == full@.take(
            (old(steps).deep_view().len() + setup@.setup.shapes.len()) as int,
        ),
{
    let ghost off = old(steps).deep_view().len() as int;
    let n = setup.setup.shapes.len();
    let mut i: usize = 0;
    while i < n
        invariant
            n == setup@.setup.shapes.len(),
            0 <= i <= n,
            off + n <= full@.len(),
            steps.deep_view().len() == off + i,
            steps.deep_view() == full@.take(off + i),
            forall|k: int|
                0 <= k < n ==> full@[off + k] == if starting {
                    spec_start_shape_step(setup@.shapes, setup@.setup.shapes[k])
                } else {
                    spec_stop_shape_step(
                        setup@.shapes,
                        setup@.setup.shapes[setup@.setup.shapes.len() - 1 - k],
                    )
                },
        decreases n - i,
    {
        let idx = if starting {
            i
        } else {
            n - 1 - i
        };
        let name = &setup.setup.shapes[idx];
        proof {
            assert(name@ == setup@.setup.shapes[idx as int]);
        }
        let step = match setup.get_shape(name.as_str()) {
            Some(shape) => {
                if starting {
                    PlanStep {
                        action: StepAction::StartShape {
                            name: name.clone(),
                            shape: shape.clone(),
                        },
                        policy: StepPolicy::LogAndContinue,
                    }
                } else {
                    PlanStep {
                        action: StepAction::StopShape {
                            name: name.clone(),
                            shape: shape.clone(),
                        },
                        policy: StepPolicy::LogAndContinue,
                    }
                }
            },
            None => PlanStep {
                action: StepAction::SkipMissingShape { name: name.clone() },
                policy: StepPolicy::LogAndContinue,
            },
        };
        proof {
            if starting {
                assert(full@[off + i] == spec_start_shape_step(
                    setup@.shapes,
                    setup@.setup.shapes[i as int],
                ));
            } else {
                assert(full@[off + i] == spec_stop_shape_step(
                    setup@.shapes,
                    setup@.setup.shapes[n - 1 - i as int],
                ));
            }
            assert(step@ == full@[off + i]);
        }
        steps.push(step);
        proof {
            assert(steps.deep_view()[off + i] == steps@[off + i]@);
            assert(steps.deep_view() =~= full@.take(off + i + 1));
        }
        i += 1;
    }
}

} // verus!
