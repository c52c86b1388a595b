//! One pass of compile, run and clean up, as a state machine.
use vstd::prelude::*;

verus! {

/// How one pass of the pipeline ended.
#[derive(Clone, Copy, Debug, PartialEq, Eq, Structural)]
pub enum Outcome {
    CompileFailed,
    RunFailed,
    Succeeded,
}

/// Where one pass of the pipeline stands.
#[derive(Clone, Copy, Debug, PartialEq, Eq, Structural)]
pub enum Stage {
    Idle,
    Compiling,
    Running,
    Cleanup,
    Terminal(Outcome),
}

/// The outside work that a stage asks the caller to perform.
#[derive(Clone, Copy, Debug, PartialEq, Eq, Structural)]
pub enum Command {
    /// Clear the terminal before the pass starts.
    ClearScreen,
    /// Compile the source into the artifact.
    Compile,
    /// Execute the artifact.
    Run,
    /// Remove the artifact.
    DeleteArtifact,
    /// Nothing left to do: the pass ended with this outcome.
    Finish(Outcome),
}

/// The stage that follows `stage` once its command has been carried out,
/// `ok` being whether it succeeded. Removing the artifact cannot fail here:
/// a failed removal aborts the process instead.
pub open spec fn next_stage(stage: Stage, ok: bool) -> Stage {
    match stage {
        Stage::Idle => Stage::Compiling,
        Stage::Compiling => if ok {
            Stage::Running
        } else {
            Stage::Terminal(Outcome::CompileFailed)
        },
        Stage::Running => if ok {
            Stage::Cleanup
        } else {
            Stage::Terminal(Outcome::RunFailed)
        },
        Stage::Cleanup => Stage::Terminal(Outcome::Succeeded),
        Stage::Terminal(o) => Stage::Terminal(o),
    }
}

/// The command that belongs to each stage.
pub open spec fn command_of(stage: Stage) -> Command {
    match stage {
        Stage::Idle => Command::ClearScreen,
        Stage::Compiling => Command::Compile,
        Stage::Running => Command::Run,
        Stage::Cleanup => Command::DeleteArtifact,
        Stage::Terminal(o) => Command::Finish(o),
    }
}

/// Whether the artifact is on disk while the pass is in `stage`.
pub open spec fn artifact_in(stage: Stage) -> bool {
    match stage {
        Stage::Running | Stage::Cleanup | Stage::Terminal(Outcome::RunFailed) => true,
        _ => false,
    }
}

/// Whether the compiler has produced an artifact by the time the pass is in `stage`.
pub open spec fn artifact_built_by(stage: Stage) -> bool {
    match stage {
        Stage::Idle | Stage::Compiling | Stage::Terminal(Outcome::CompileFailed) => false,
        _ => true,
    }
}

/// One pass of the pipeline: its stage, whether the artifact is on disk, and
/// whether the compiler produced one during this pass.
#[derive(Clone, Copy, Debug, PartialEq, Eq, Structural)]
pub struct Cycle {
    pub stage: Stage,
    pub artifact_present: bool,
    pub artifact_built: bool,
}

impl Cycle {
    /// The artifact flags agree with the stage.
    pub open spec fn wf(self) -> bool {
        &&& self.artifact_present == artifact_in(self.stage)
        &&& self.artifact_built == artifact_built_by(self.stage)
    }

    /// The pass after the command of its stage was carried out with result `ok`:
    /// a successful compile creates the artifact, a removal deletes it.
    pub open spec fn after(self, ok: bool) -> Cycle {
        let stage = next_stage(self.stage, ok);
        match self.stage {
            Stage::Compiling => Cycle {
                stage,
                artifact_present: ok,
                artifact_built: ok,
            },
            Stage::Cleanup => Cycle { stage, artifact_present: false, ..self },
            _ => Cycle { stage, ..self },
        }
    }

    /// The pass after the results `oks` were reported one by one.
    pub open spec fn replay(self, oks: Seq<bool>) -> Cycle
        decreases oks.len(),
    {
        if oks.len() == 0 {
            self
        } else {
            self.after(oks[0]).replay(oks.drop_first())
        }
    }

    /// A pass that has not started.
    pub fn new() -> (r: Cycle)
        ensures
            r.stage == Stage::Idle,
            !r.artifact_present,
            !r.artifact_built,
            r.wf(),
    {
        Cycle { stage: Stage::Idle, artifact_present: false, artifact_built: false }
    }

    /// The work that the caller is to perform next.
    pub fn command(&self) -> (r: Command)
        ensures
            r == command_of(self.stage),
    {
        match self.stage {
            Stage::Idle => Command::ClearScreen,
            Stage::Compiling => Command::Compile,
            Stage::Running => Command::Run,
            Stage::Cleanup => Command::DeleteArtifact,
            Stage::Terminal(o) => Command::Finish(o),
        }
    }

    /// Records the result of the command that `command` asked for. A failed
    /// removal of the artifact is never reported: the caller aborts instead.
    pub fn report(&mut self, ok: bool)
        requires
            old(self).wf(),
            old(self).stage == Stage::Cleanup ==> ok,
        ensures
            *final(self) == old(self).after(ok),
            final(self).stage == next_stage(old(self).stage, ok),
            final(self).wf(),
    {
        let stage = self.stage;
        match stage {
            Stage::Idle => {
                self.stage = Stage::Compiling;
            },
            Stage::Compiling => {
                if ok {
                    self.stage = Stage::Running;
                } else {
                    self.stage = Stage::Terminal(Outcome::CompileFailed);
                }
                self.artifact_present = ok;
                self.artifact_built = ok;
            },
            Stage::Running => {
                if ok {
                    self.stage = Stage::Cleanup;
                } else {
                    self.stage = Stage::Terminal(Outcome::RunFailed);
                }
            },
            Stage::Cleanup => {
                self.stage = Stage::Terminal(Outcome::Succeeded);
                self.artifact_present = false;
            },
            Stage::Terminal(_) => {},
        }
    }

    /// The outcome of the pass, once it has ended.
    pub fn outcome(&self) -> (r: Option<Outcome>)
        ensures
            r == (match self.stage {
                Stage::Terminal(o) => Some(o),
                _ => None::<Outcome>,
            }),
    {
        match self.stage {
            Stage::Terminal(o) => Some(o),
            _ => None,
        }
    }
}

/// Reporting results one by one keeps the artifact flags in step with the stage.
pub proof fn lemma_replay_wf(c: Cycle, oks: Seq<bool>)
    requires
        c.wf(),
    ensures
        c.replay(oks).wf(),
    decreases oks.len(),
{
    if oks.len() > 0 {
        lemma_replay_wf(c.after(oks[0]), oks.drop_first());
    }
}

/// Whatever results are reported to a fresh pass: a pass that succeeded leaves
/// no artifact behind, a pass whose program failed leaves it on disk, and a
/// pass that failed to compile never had one.
pub proof fn lemma_artifact_at_end(oks: Seq<bool>)
    ensures
        ({
            let c = Cycle { stage: Stage::Idle, artifact_present: false, artifact_built: false }.replay(oks);
            &&& c.stage == Stage::Terminal(Outcome::Succeeded) ==> !c.artifact_present
            &&& c.stage == Stage::Terminal(Outcome::RunFailed) ==> c.artifact_present
            &&& c.stage == Stage::Terminal(Outcome::CompileFailed) ==> !c.artifact_built
                && !c.artifact_present
        }),
{
    lemma_replay_wf(Cycle { stage: Stage::Idle, artifact_present: false, artifact_built: false }, oks);
}

} // verus!
