//! Operations in flight.
//!
//! An operation on a register is a list of stages. Each stage puts an image
//! into the register, shifts it out one line operation at a time and may hold
//! it for a while. A [`Run`] walks through the stages: it hands out one
//! [`Step`] at a time and is told the [`Outcome`] of the step before it hands
//! out the next. What it hands out for every state and outcome is given by
//! [`RunView::step`].

use crate::commit::{commit, lemma_commit_layout, Pinout, FRAME_BITS};
use crate::errors::{LineOperation, TestToolError};
use crate::line::LineAction;
use crate::shift_register::ShiftRegister;
use vstd::prelude::*;

verus! {

/// One stage of an operation.
#[derive(Clone, Copy, Debug, PartialEq, Eq)]
pub struct Stage {
    /// The image that the stage puts into the register and shifts out.
    pub image: u64,
    /// How long the image is held after the commit, in milliseconds.
    pub hold_millis: u64,
    /// Whether a failed line operation ends the whole operation with its
    /// error. If not, the rest of the commit is given up and the operation
    /// goes on with the hold.
    pub required: bool,
}

/// How the step that was handed out last went.
#[derive(Clone, Copy, Debug, PartialEq, Eq)]
pub enum Outcome {
    /// It was carried out.
    Completed,
    /// The hardware refused it.
    Failed,
}

/// What the owner of the hardware is to do next.
#[derive(Clone, Copy, Debug, PartialEq, Eq)]
pub enum Step {
    /// Perform this line operation and report its outcome.
    Line(LineAction),
    /// Wait this long.
    Sleep { millis: u64 },
    /// Nothing more: the operation has ended with this result.
    Finish(Result<(), TestToolError>),
}

/// How far a run has come.
#[verifier::ext_equal]
pub ghost enum Progress {
    /// No step has been handed out yet.
    Ready,
    /// The commit of stage `stage` is under way: `plan` is the whole commit
    /// and its first `issued` operations have been handed out.
    Shifting { stage: nat, plan: Seq<LineAction>, issued: nat },
    /// The hold of stage `stage` has been handed out.
    Holding { stage: nat },
    /// The operation has ended.
    Finished { result: Result<(), TestToolError> },
}

/// The state of a run.
#[verifier::ext_equal]
pub ghost struct RunView {
    pub stages: Seq<Stage>,
    pub progress: Progress,
}

/// The effect of one call of [`Run::next`].
#[verifier::ext_equal]
pub ghost struct Transition {
    /// The run after the call.
    pub run: RunView,
    /// The image of the register after the call.
    pub image: u64,
    /// The step handed out.
    pub step: Step,
}

/// The end of a run of `stages` with `result`.
pub open spec fn finish(stages: Seq<Stage>, image: u64, result: Result<(), TestToolError>)
    -> Transition {
    Transition {
        run: RunView { stages, progress: Progress::Finished { result } },
        image,
        step: Step::Finish(result),
    }
}

/// Going into stage `stage` of `stages`: past the last stage the run ends
/// well. Otherwise the stage's image goes into the register, and the first
/// operation of its commit is handed out; a commit without operations is
/// left at once.
pub open spec fn enter(stages: Seq<Stage>, pins: Pinout, stage: nat, image: u64) -> Transition
    decreases stages.len() - stage, 1nat,
{
    if stage >= stages.len() {
        finish(stages, image, Ok(()))
    } else {
        let plan = commit(pins, stages[stage as int].image);
        if plan.len() > 0 {
            Transition {
                run: RunView { stages, progress: Progress::Shifting { stage, plan, issued: 1 } },
                image: stages[stage as int].image,
                step: Step::Line(plan[0]),
            }
        } else {
            leave(stages, pins, stage, stages[stage as int].image)
        }
    }
}

/// Leaving the commit of stage `stage` of `stages`: its hold is handed out
/// if it has one, else the next stage is gone into.
pub open spec fn leave(stages: Seq<Stage>, pins: Pinout, stage: nat, image: u64) -> Transition
    decreases stages.len() - stage, 0nat,
{
    if stage >= stages.len() {
        finish(stages, image, Ok(()))
    } else if stages[stage as int].hold_millis > 0 {
        Transition {
            run: RunView { stages, progress: Progress::Holding { stage } },
            image,
            step: Step::Sleep { millis: stages[stage as int].hold_millis },
        }
    } else {
        enter(stages, pins, stage + 1, image)
    }
}

impl RunView {
    /// A run of `stages` that has not begun.
    pub open spec fn ready(stages: Seq<Stage>) -> RunView {
        RunView { stages, progress: Progress::Ready }
    }

    /// Whether the progress lies within the stages and the plan.
    pub open spec fn well_formed(self) -> bool {
        match self.progress {
            Progress::Ready => true,
            Progress::Shifting { stage, plan, issued } => stage < self.stages.len() && 1 <= issued
                <= plan.len(),
            Progress::Holding { stage } => stage < self.stages.len(),
            Progress::Finished { .. } => true,
        }
    }

    /// What a run in this state does when it is told `last` about the step
    /// it handed out before, on a register with lines `pins` and image
    /// `image`.
    ///
    /// The outcome counts only while a commit is under way. There, a failure
    /// in a required stage ends the run with the error of the operation that
    /// failed, and nothing of the commit is handed out after it; a failure in
    /// another stage leaves the commit. A finished run stays finished.
    pub open spec fn step(self, pins: Pinout, image: u64, last: Outcome) -> Transition {
        match self.progress {
            Progress::Ready => enter(self.stages, pins, 0, image),
            Progress::Shifting { stage, plan, issued } => {
                if last == Outcome::Failed {
                    if self.stages[stage as int].required {
                        finish(self.stages, image, Err(plan[issued - 1].spec_failure()))
                    } else {
                        leave(self.stages, pins, stage, image)
                    }
                } else if issued < plan.len() {
                    Transition {
                        run: RunView {
                            stages: self.stages,
                            progress: Progress::Shifting { stage, plan, issued: issued + 1 },
                        },
                        image,
                        step: Step::Line(plan[issued as int]),
                    }
                } else {
                    leave(self.stages, pins, stage, image)
                }
            },
            Progress::Holding { stage } => enter(self.stages, pins, stage + 1, image),
            Progress::Finished { result } => finish(self.stages, image, result),
        }
    }
}

/// The steps that a run hands out when it is called once for each of
/// `outcomes`, in their order, on a register with lines `pins` that holds
/// `image` at the first call.
pub open spec fn steps_of(run: RunView, pins: Pinout, image: u64, outcomes: Seq<Outcome>) -> Seq<
    Step,
>
    decreases outcomes.len(),
{
    if outcomes.len() == 0 {
        Seq::empty()
    } else {
        let first = run.step(pins, image, outcomes[0]);
        seq![first.step] + steps_of(first.run, pins, first.image, outcomes.drop_first())
    }
}

/// While every line operation is reported as completed, a run whose commit
/// is under way hands out the rest of the commit, operation by operation
/// and in the order of the plan.
pub proof fn lemma_commit_is_handed_out_in_order(
    run: RunView,
    pins: Pinout,
    image: u64,
    outcomes: Seq<Outcome>,
)
    requires
        run.well_formed(),
        run.progress matches Progress::Shifting { plan, issued, .. } && outcomes.len() == plan.len()
            - issued,
        forall|i: int| 0 <= i < outcomes.len() ==> outcomes[i] == Outcome::Completed,
    ensures
        run.progress matches Progress::Shifting { plan, issued, .. } ==> steps_of(
            run,
            pins,
            image,
            outcomes,
        ) == Seq::new(outcomes.len(), |i: int| Step::Line(plan[issued + i])),
    decreases outcomes.len(),
{
    if let Progress::Shifting { stage, plan, issued } = run.progress {
        let expected = Seq::new(outcomes.len(), |i: int| Step::Line(plan[issued + i]));
        if outcomes.len() > 0 {
            let first = run.step(pins, image, outcomes[0]);
            let rest = outcomes.drop_first();
            lemma_commit_is_handed_out_in_order(first.run, pins, first.image, rest);
            let tail = Seq::new(rest.len(), |i: int| Step::Line(plan[issued + 1 + i]));
            assert(steps_of(first.run, pins, first.image, rest) == tail);
            assert(seq![first.step] + tail =~= expected);
        } else {
            assert(steps_of(run, pins, image, outcomes) =~= expected);
        }
    }
}

/// A failed line operation in a stage that must succeed ends the run with
/// the error of that operation and leaves the image as it is. The run is
/// finished then: whatever it is told later, it hands out the same result
/// and no line operation.
pub proof fn lemma_failure_ends_run(run: RunView, pins: Pinout, image: u64, later: Outcome)
    requires
        run.well_formed(),
        run.progress matches Progress::Shifting { stage, .. } && run.stages[stage as int].required,
    ensures
        run.progress matches Progress::Shifting { plan, issued, .. } ==> {
            let end = run.step(pins, image, Outcome::Failed);
            &&& end == finish(run.stages, image, Err(plan[issued - 1].spec_failure()))
            &&& end.run.step(pins, image, later) == end
        },
{
}

/// When the write of a bit on the data line fails, in any cycle of a commit
/// that must succeed on a register with all four lines, the run ends with
/// the error of a value write on the data line. The latch is not pulsed:
/// the run is finished and hands out nothing but that result.
pub proof fn lemma_data_write_failure(
    stages: Seq<Stage>,
    stage: nat,
    pins: Pinout,
    image: u64,
    cycle: int,
    later: Outcome,
)
    requires
        pins.complete(),
        stage < stages.len(),
        stages[stage as int].required,
        0 <= cycle < FRAME_BITS,
    ensures
        ({
            let plan = commit(pins, stages[stage as int].image);
            let run = RunView {
                stages,
                progress: Progress::Shifting { stage, plan, issued: (13 + 3 * cycle) as nat },
            };
            let error = TestToolError::GpioError {
                operation: LineOperation::SetValue,
                line: pins.ds_pin->0,
            };
            let end = run.step(pins, image, Outcome::Failed);
            &&& run.well_formed()
            &&& plan[12 + 3 * cycle].spec_line() == pins.ds_pin->0
            &&& end == finish(stages, image, Err(error))
            &&& end.run.step(pins, image, later) == end
        }),
{
    lemma_commit_layout(pins, stages[stage as int].image, cycle);
}

/// Where a run stands, without what belongs to it.
#[derive(Clone, Copy, Debug)]
enum Phase {
    Ready,
    Shifting,
    Holding,
    Finished,
}

/// An operation in flight.
#[derive(Debug)]
pub struct Run {
    stages: Vec<Stage>,
    phase: Phase,
    stage: usize,
    plan: Vec<LineAction>,
    issued: usize,
    result: Result<(), TestToolError>,
}

impl View for Run {
    type V = RunView;

    closed spec fn view(&self) -> RunView {
        RunView {
            stages: self.stages@,
            progress: match self.phase {
                Phase::Ready => Progress::Ready,
                Phase::Shifting => Progress::Shifting {
                    stage: self.stage as nat,
                    plan: self.plan@,
                    issued: self.issued as nat,
                },
                Phase::Holding => Progress::Holding { stage: self.stage as nat },
                Phase::Finished => Progress::Finished { result: self.result },
            },
        }
    }
}

impl Run {
    #[verifier::type_invariant]
    spec fn within_bounds(self) -> bool {
        self@.well_formed()
    }

    /// A run of `stages` that has not begun.
    pub fn new(stages: Vec<Stage>) -> (run: Run)
        ensures
            run@ == RunView::ready(stages@),
    {
        Run { stages, phase: Phase::Ready, stage: 0, plan: Vec::new(), issued: 0, result: Ok(()) }
    }

    /// Hands out the next step. `last` tells how the step handed out before
    /// went; before the first step it is not read.
    ///
    /// Entering a stage writes its image into `register` and plans the
    /// commit on the lines that the register has at that moment.
    pub fn next(&mut self, register: &mut ShiftRegister, last: Outcome) -> (step: Step)
        ensures
            (Transition { run: final(self)@, image: final(register).data, step }) == old(self)@.step(
                old(register).pins(),
                old(register).data,
                last,
            ),
            final(self)@.well_formed(),
            final(register).pins() == old(register).pins(),
            final(register).register_type == old(register).register_type,
    {
        proof {
            use_type_invariant(&*self);
        }
        let ghost pins = register.pins();
        let ghost goal = self@.step(pins, register.data, last);
        let count = self.stages.len();
        let mut stage: usize = 0;
        match self.phase {
            Phase::Finished => {
                return Step::Finish(self.result);
            },
            Phase::Ready => {},
            Phase::Holding => {
                stage = self.stage + 1;
            },
            Phase::Shifting => {
                let failed = match last {
                    Outcome::Failed => true,
                    Outcome::Completed => false,
                };
                let current = self.stages[self.stage];
                if failed && current.required {
                    let error = self.plan[self.issued - 1].failure();
                    self.result = Err(error);
                    self.phase = Phase::Finished;
                    return Step::Finish(Err(error));
                }
                if !failed && self.issued < self.plan.len() {
                    let action = self.plan[self.issued];
                    self.issued = self.issued + 1;
                    return Step::Line(action);
                }
                if current.hold_millis > 0 {
                    self.phase = Phase::Holding;
                    return Step::Sleep { millis: current.hold_millis };
                }
                stage = self.stage + 1;
            },
        }
        while stage < count
            invariant
                *self == *old(self),
                count == self.stages.len(),
                pins == old(register).pins(),
                register.pins() == pins,
                register.register_type == old(register).register_type,
                goal == old(self)@.step(pins, old(register).data, last),
                goal == enter(self.stages@, pins, stage as nat, register.data),
            decreases count - stage,
        {
            let current = self.stages[stage];
            register.data = current.image;
            let plan = register.shift_out();
            if plan.len() > 0 {
                let action = plan[0];
                self.phase = Phase::Ready;
                self.stage = stage;
                self.plan = plan;
                self.issued = 1;
                self.phase = Phase::Shifting;
                return Step::Line(action);
            }
            if current.hold_millis > 0 {
                self.phase = Phase::Ready;
                self.stage = stage;
                self.phase = Phase::Holding;
                return Step::Sleep { millis: current.hold_millis };
            }
            stage = stage + 1;
        }
        self.result = Ok(());
        self.phase = Phase::Finished;
        Step::Finish(Ok(()))
    }
}

} // verus!
