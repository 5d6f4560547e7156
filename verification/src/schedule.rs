//! The order in which the device work of a simulation is issued.
//!
//! One time step is a fixed chain of thirteen steps. The host performs a step,
//! reports how it ended, and is told what to do next; nothing here touches the
//! device.

use vstd::prelude::*;

verus! {

/// Number of steps in one time step.
pub const STEPS_PER_FRAME: u64 = 13;

/// One unit of work of a time step, in the order of issue.
#[derive(Clone, Copy, PartialEq, Eq, Structural, Debug)]
pub enum Step {
    /// Start copying the current vorticity to the host, on the transfer queue.
    ReadBack,
    /// Copy the current vorticity into the buffer that the transform reads.
    CopyField,
    /// Forward transform of the vorticity.
    ForwardTransform,
    /// Solve for the stream function in spectral space.
    InvertLaplacian,
    /// Spectral derivative that gives the velocity along y.
    VelocityY,
    /// Inverse transform of the velocity along y, in place.
    InverseTransformY,
    /// Spectral derivative that gives the velocity along x.
    VelocityX,
    /// Inverse transform of the velocity along x, in place.
    InverseTransformX,
    /// Wait until the copy to the host has arrived.
    AwaitReadBack,
    /// Transport the vorticity along the velocity.
    Advect,
    /// Colour the host copy and hand the frame to the encoder.
    EncodeFrame,
    /// Wait until the compute queue is empty.
    Sync,
    /// Advance the progress display by one.
    Tick,
}

/// How a step ended.
#[derive(Clone, Copy, PartialEq, Eq, Structural, Debug)]
pub enum Outcome {
    /// The step went through.
    Done,
    /// The step gave an error value.
    Failed,
    /// The step gave a status number; zero means success.
    Status(u32),
}

/// What the host does next.
#[derive(Clone, Copy, PartialEq, Eq, Structural, Debug)]
pub enum Directive {
    /// Perform this step and report its outcome.
    Run(Step),
    /// All time steps are done.
    Finished,
    /// A step failed: hand its error to the caller.
    Stop,
    /// A transform reported a status other than success: nothing can go on.
    Abort,
}

/// Where a simulation of `frames` time steps stands.
#[derive(Clone, Copy, PartialEq, Eq, Structural, Debug)]
pub struct Run {
    /// Time steps asked for.
    pub frames: u64,
    /// Time steps completed.
    pub frame: u64,
    /// The directive in force.
    pub now: Directive,
}

/// Place of a step within its time step, from 0.
pub open spec fn step_index(step: Step) -> int {
    match step {
        Step::ReadBack => 0,
        Step::CopyField => 1,
        Step::ForwardTransform => 2,
        Step::InvertLaplacian => 3,
        Step::VelocityY => 4,
        Step::InverseTransformY => 5,
        Step::VelocityX => 6,
        Step::InverseTransformX => 7,
        Step::AwaitReadBack => 8,
        Step::Advect => 9,
        Step::EncodeFrame => 10,
        Step::Sync => 11,
        Step::Tick => 12,
    }
}

/// The step at place `i` of a time step; places past the end give the last.
pub open spec fn step_at(i: int) -> Step {
    if i <= 0 {
        Step::ReadBack
    } else if i == 1 {
        Step::CopyField
    } else if i == 2 {
        Step::ForwardTransform
    } else if i == 3 {
        Step::InvertLaplacian
    } else if i == 4 {
        Step::VelocityY
    } else if i == 5 {
        Step::InverseTransformY
    } else if i == 6 {
        Step::VelocityX
    } else if i == 7 {
        Step::InverseTransformX
    } else if i == 8 {
        Step::AwaitReadBack
    } else if i == 9 {
        Step::Advect
    } else if i == 10 {
        Step::EncodeFrame
    } else if i == 11 {
        Step::Sync
    } else {
        Step::Tick
    }
}

/// The sign that a transform step hands to the transform: -1 forward, +1
/// inverse; no sign for the other steps.
pub open spec fn spec_direction(step: Step) -> Option<i32> {
    match step {
        Step::ForwardTransform => Some(-1i32),
        Step::InverseTransformY => Some(1i32),
        Step::InverseTransformX => Some(1i32),
        _ => None,
    }
}

/// The name of the device kernel that a step enqueues; no name for the steps
/// that run no kernel.
pub open spec fn spec_kernel(step: Step) -> Option<Seq<char>> {
    match step {
        Step::InvertLaplacian => Some("inv_mlap"@),
        Step::VelocityY => Some("mdiff_x"@),
        Step::VelocityX => Some("diff_y"@),
        Step::Advect => Some("advection"@),
        _ => None,
    }
}

/// An outcome that lets the run go on.
pub open spec fn spec_passes(outcome: Outcome) -> bool {
    match outcome {
        Outcome::Done => true,
        Outcome::Failed => false,
        Outcome::Status(code) => code == 0,
    }
}

/// The state in which a run of `frames` time steps begins.
pub open spec fn spec_start(frames: u64) -> Run {
    Run {
        frames,
        frame: 0,
        now: if frames == 0 {
            Directive::Finished
        } else {
            Directive::Run(Step::ReadBack)
        },
    }
}

/// The state that follows `run` once the step in force has ended in `outcome`.
/// A run that is no longer told to perform a step stays as it is.
pub open spec fn spec_react(run: Run, outcome: Outcome) -> Run {
    match run.now {
        Directive::Run(step) => match outcome {
            Outcome::Failed => Run { now: Directive::Stop, ..run },
            Outcome::Status(code) if code != 0 => Run { now: Directive::Abort, ..run },
            _ => if step != Step::Tick {
                Run { now: Directive::Run(step_at(step_index(step) + 1)), ..run }
            } else if run.frame + 1 < run.frames {
                Run {
                    frames: run.frames,
                    frame: (run.frame + 1) as u64,
                    now: Directive::Run(Step::ReadBack),
                }
            } else {
                Run { frames: run.frames, frame: run.frames, now: Directive::Finished }
            },
        },
        _ => run,
    }
}

/// The state after `k` steps that all went through, from the beginning.
pub open spec fn run_after(frames: u64, k: nat) -> Run
    decreases k,
{
    if k == 0 {
        spec_start(frames)
    } else {
        spec_react(run_after(frames, (k - 1) as nat), Outcome::Done)
    }
}

impl Step {
    /// Place of the step within its time step, from 0.
    pub fn index(self) -> (i: u64)
        ensures
            i == step_index(self),
            i < STEPS_PER_FRAME,
            step_at(i as int) == self,
    {
        match self {
            Step::ReadBack => 0,
            Step::CopyField => 1,
            Step::ForwardTransform => 2,
            Step::InvertLaplacian => 3,
            Step::VelocityY => 4,
            Step::InverseTransformY => 5,
            Step::VelocityX => 6,
            Step::InverseTransformX => 7,
            Step::AwaitReadBack => 8,
            Step::Advect => 9,
            Step::EncodeFrame => 10,
            Step::Sync => 11,
            Step::Tick => 12,
        }
    }

    /// The step that follows within the same time step, if there is one.
    pub fn following(self) -> (next: Option<Step>)
        ensures
            self == Step::Tick <==> next is None,
            next matches Some(s) ==> s == step_at(step_index(self) + 1) && step_index(s)
                == step_index(self) + 1,
    {
        match self {
            Step::ReadBack => Some(Step::CopyField),
            Step::CopyField => Some(Step::ForwardTransform),
            Step::ForwardTransform => Some(Step::InvertLaplacian),
            Step::InvertLaplacian => Some(Step::VelocityY),
            Step::VelocityY => Some(Step::InverseTransformY),
            Step::InverseTransformY => Some(Step::VelocityX),
            Step::VelocityX => Some(Step::InverseTransformX),
            Step::InverseTransformX => Some(Step::AwaitReadBack),
            Step::AwaitReadBack => Some(Step::Advect),
            Step::Advect => Some(Step::EncodeFrame),
            Step::EncodeFrame => Some(Step::Sync),
            Step::Sync => Some(Step::Tick),
            Step::Tick => None,
        }
    }

    /// The name of the device kernel that the step enqueues.
    pub fn kernel(self) -> (name: Option<&'static str>)
        ensures
            match name {
                Some(s) => spec_kernel(self) == Some(s@),
                None => spec_kernel(self) is None,
            },
    {
        match self {
            Step::InvertLaplacian => Some("inv_mlap"),
            Step::VelocityY => Some("mdiff_x"),
            Step::VelocityX => Some("diff_y"),
            Step::Advect => Some("advection"),
            _ => None,
        }
    }

    /// The sign handed to the transform by a transform step.
    pub fn direction(self) -> (sign: Option<i32>)
        ensures
            sign == spec_direction(self),
    {
        match self {
            Step::ForwardTransform => Some(-1i32),
            Step::InverseTransformY => Some(1i32),
            Step::InverseTransformX => Some(1i32),
            _ => None,
        }
    }
}

impl Outcome {
    /// Whether the run goes on after this outcome.
    pub fn passes(self) -> (ok: bool)
        ensures
            ok == spec_passes(self),
    {
        match self {
            Outcome::Done => true,
            Outcome::Failed => false,
            Outcome::Status(code) => code == 0,
        }
    }
}

impl Run {
    /// A run is well formed when it has not counted more time steps than
    /// were asked for, is told to perform a step only while some are left,
    /// and is told that it has finished only when none is.
    pub open spec fn wf(self) -> bool {
        &&& self.frame <= self.frames
        &&& (self.now is Run ==> self.frame < self.frames)
        &&& (self.now is Finished ==> self.frame == self.frames)
    }

    /// Begins a run of `frames` time steps.
    pub fn start(frames: u64) -> (run: Run)
        ensures
            run == spec_start(frames),
            run.wf(),
    {
        let now = if frames == 0 {
            Directive::Finished
        } else {
            Directive::Run(Step::ReadBack)
        };
        Run { frames, frame: 0, now }
    }

    /// The directive in force.
    pub fn directive(&self) -> (now: Directive)
        ensures
            now == self.now,
    {
        self.now
    }

    /// Takes the outcome of the step in force and moves on.
    pub fn react(self, outcome: Outcome) -> (next: Run)
        ensures
            next == spec_react(self, outcome),
            self.wf() ==> next.wf(),
            next.frames == self.frames,
    {
        match self.now {
            Directive::Run(step) => {
                if !outcome.passes() {
                    let now = match outcome {
                        Outcome::Failed => Directive::Stop,
                        _ => Directive::Abort,
                    };
                    Run { frames: self.frames, frame: self.frame, now }
                } else {
                    match step.following() {
                        Some(s) => Run {
                            frames: self.frames,
                            frame: self.frame,
                            now: Directive::Run(s),
                        },
                        None => {
                            if self.frame < self.frames && self.frame + 1 < self.frames {
                                Run {
                                    frames: self.frames,
                                    frame: self.frame + 1,
                                    now: Directive::Run(Step::ReadBack),
                                }
                            } else {
                                Run {
                                    frames: self.frames,
                                    frame: self.frames,
                                    now: Directive::Finished,
                                }
                            }
                        },
                    }
                }
            },
            _ => self,
        }
    }
}

/// While every step goes through, the run issues the thirteen steps of each
/// time step in order, time step after time step, and reports the end exactly
/// when `13 * frames` steps have gone through; after that nothing changes.
pub proof fn lemma_run_order(frames: u64, k: nat)
    ensures
        k < STEPS_PER_FRAME * frames ==> run_after(frames, k) == (Run {
            frames,
            frame: (k / 13) as u64,
            now: Directive::Run(step_at((k % 13) as int)),
        }),
        k >= STEPS_PER_FRAME * frames ==> run_after(frames, k) == (Run {
            frames,
            frame: frames,
            now: Directive::Finished,
        }),
        run_after(frames, k).wf(),
    decreases k,
{
    if k > 0 {
        lemma_run_order(frames, (k - 1) as nat);
    }
}

/// A run that has stopped, for whatever reason, stays as it is.
pub proof fn lemma_halted_stays(run: Run, outcome: Outcome)
    requires
        !(run.now is Run),
    ensures
        spec_react(run, outcome) == run,
{
}

/// An error value stops the run and a transform status other than zero
/// aborts it, at whatever step they come.
pub proof fn lemma_failure_halts(run: Run, outcome: Outcome)
    requires
        run.now is Run,
        !spec_passes(outcome),
    ensures
        outcome == Outcome::Failed ==> spec_react(run, outcome).now == Directive::Stop,
        outcome != Outcome::Failed ==> spec_react(run, outcome).now == Directive::Abort,
        spec_react(run, outcome).frame == run.frame,
{
}

} // verus!
