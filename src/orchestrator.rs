use vstd::prelude::*;
use crate::naming::join_path;
use crate::steps::{release_dir, Action, OutputKind, ReleaseError, Step, StepPlan};
use crate::target::{all_targets, Target};

verus! {

/// What the release command is given: the version to release.
pub struct Args {
    pub version: String,
}

/// A release: where it is rooted, its version, and its steps in order.
pub struct ReleasePlan {
    pub root: String,
    pub version: String,
    pub steps: Vec<Step>,
}

/// The steps of a full release: command-line tarballs for every target, the Debian and RPM
/// packages and the container image of the static-linked Linux target, then library
/// tarballs for every target.
pub open spec fn standard_steps() -> Seq<Step> {
    all_targets().map_values(|t: Target| Step { kind: OutputKind::CliTarball, target: t })
        + seq![
            Step { kind: OutputKind::Deb, target: Target::X8664UnknownLinuxMusl },
            Step { kind: OutputKind::Rpm, target: Target::X8664UnknownLinuxMusl },
            Step { kind: OutputKind::Container, target: Target::X8664UnknownLinuxMusl },
        ]
        + all_targets().map_values(|t: Target| Step { kind: OutputKind::LibraryTarball, target: t })
}

impl ReleasePlan {
    /// The full release of `args.version`, rooted at `root`.
    pub fn standard(root: String, args: Args) -> (r: ReleasePlan)
        ensures
            r.root@ == root@,
            r.version@ == args.version@,
            r.steps@ == standard_steps(),
    {
        let targets = Target::all();
        let mut steps: Vec<Step> = Vec::new();
        let mut i: usize = 0;
        while i < targets.len()
            invariant
                targets@ == all_targets(),
                0 <= i <= targets.len(),
                steps@ == all_targets().take(i as int).map_values(
                    |t: Target| Step { kind: OutputKind::CliTarball, target: t },
                ),
            decreases targets.len() - i,
        {
            steps.push(Step { kind: OutputKind::CliTarball, target: targets[i] });
            i = i + 1;
            assert(all_targets().take(i as int) =~= all_targets().take(i - 1).push(targets[i - 1]));
        }
        assert(all_targets().take(6) =~= all_targets());
        let ghost head = steps@;
        steps.push(Step { kind: OutputKind::Deb, target: Target::X8664UnknownLinuxMusl });
        steps.push(Step { kind: OutputKind::Rpm, target: Target::X8664UnknownLinuxMusl });
        steps.push(Step { kind: OutputKind::Container, target: Target::X8664UnknownLinuxMusl });
        let ghost middle = steps@;
        let mut i: usize = 0;
        while i < targets.len()
            invariant
                targets@ == all_targets(),
                0 <= i <= targets.len(),
                steps@ == middle + all_targets().take(i as int).map_values(
                    |t: Target| Step { kind: OutputKind::LibraryTarball, target: t },
                ),
            decreases targets.len() - i,
        {
            steps.push(Step { kind: OutputKind::LibraryTarball, target: targets[i] });
            i = i + 1;
            assert(all_targets().take(i as int) =~= all_targets().take(i - 1).push(targets[i - 1]));
        }
        assert(steps@ =~= standard_steps());
        ReleasePlan { root, version: args.version, steps }
    }
}

/// How one unit of outside work ended.
#[derive(Clone, Copy, Debug, PartialEq, Eq, Structural)]
pub enum Outcome {
    Succeeded,
    Failed(ReleaseError),
}

/// Which step failed, and how; no step when resetting the release directory failed.
#[derive(Clone, Copy, Debug, PartialEq, Eq, Structural)]
pub struct Failure {
    pub step: Option<Step>,
    pub error: ReleaseError,
}

/// Where a run stands.
#[derive(Clone, Copy, Debug, PartialEq, Eq, Structural)]
pub enum RunState {
    NotStarted,
    /// The release directory has been reset and the steps before `next` succeeded.
    Packaging { next: usize },
    Done,
    Aborted(Failure),
}

/// What a run asks its driver to do next.
#[derive(Clone, Copy, Debug, PartialEq, Eq, Structural)]
pub enum Directive {
    ResetReleaseDirectory,
    RunStep { index: usize, step: Step },
    Finished,
    Stopped(Failure),
}

/// The state after an outcome is reported in `s`, for a run of `steps`.
pub open spec fn next_run_state(steps: Seq<Step>, s: RunState, o: Outcome) -> RunState {
    match s {
        RunState::NotStarted => match o {
            Outcome::Succeeded => if steps.len() == 0 {
                RunState::Done
            } else {
                RunState::Packaging { next: 0 }
            },
            Outcome::Failed(e) => RunState::Aborted(Failure { step: None, error: e }),
        },
        RunState::Packaging { next } => if next < steps.len() {
            match o {
                Outcome::Succeeded => if next + 1 == steps.len() {
                    RunState::Done
                } else {
                    RunState::Packaging { next: (next + 1) as usize }
                },
                Outcome::Failed(e) => RunState::Aborted(Failure { step: Some(steps[next as int]), error: e }),
            }
        } else {
            s
        },
        _ => s,
    }
}

/// The directive of state `s`, for a run of `steps`.
pub open spec fn run_directive(steps: Seq<Step>, s: RunState) -> Directive {
    match s {
        RunState::NotStarted => Directive::ResetReleaseDirectory,
        RunState::Packaging { next } => if next < steps.len() {
            Directive::RunStep { index: next, step: steps[next as int] }
        } else {
            Directive::Finished
        },
        RunState::Done => Directive::Finished,
        RunState::Aborted(f) => Directive::Stopped(f),
    }
}

/// One run of a release plan: it resets the release directory once, then runs the steps in
/// order, and stops at the first failure.
pub struct ReleaseRun {
    pub plan: ReleasePlan,
    pub state: RunState,
}

impl ReleaseRun {
    pub open spec fn well_formed(&self) -> bool {
        match self.state {
            RunState::Packaging { next } => next < self.plan.steps.len(),
            _ => true,
        }
    }

    pub fn new(plan: ReleasePlan) -> (r: ReleaseRun)
        ensures
            r.plan == plan,
            r.state == RunState::NotStarted,
            r.well_formed(),
    {
        ReleaseRun { plan, state: RunState::NotStarted }
    }

    /// The release directory of the run.
    pub fn release_directory(&self) -> (r: String)
        ensures
            r@ == release_dir(self.plan.root@),
    {
        let dist = join_path(self.plan.root.as_str(), "dist");
        join_path(dist.as_str(), "release")
    }

    pub fn directive(&self) -> (r: Directive)
        requires
            self.well_formed(),
        ensures
            r == run_directive(self.plan.steps@, self.state),
    {
        match self.state {
            RunState::NotStarted => Directive::ResetReleaseDirectory,
            RunState::Packaging { next } => Directive::RunStep { index: next, step: self.plan.steps[next] },
            RunState::Done => Directive::Finished,
            RunState::Aborted(f) => Directive::Stopped(f),
        }
    }

    /// Takes in how the work of the last directive ended.
    pub fn report(&mut self, o: Outcome)
        requires
            old(self).well_formed(),
        ensures
            final(self).plan == old(self).plan,
            final(self).state == next_run_state(old(self).plan.steps@, old(self).state, o),
            final(self).well_formed(),
    {
        let n = self.plan.steps.len();
        let s = match self.state {
            RunState::NotStarted => match o {
                Outcome::Succeeded => if n == 0 {
                    RunState::Done
                } else {
                    RunState::Packaging { next: 0 }
                },
                Outcome::Failed(e) => RunState::Aborted(Failure { step: None, error: e }),
            },
            RunState::Packaging { next } => match o {
                Outcome::Succeeded => if next + 1 == n {
                    RunState::Done
                } else {
                    RunState::Packaging { next: next + 1 }
                },
                Outcome::Failed(e) => RunState::Aborted(Failure { step: Some(self.plan.steps[next]), error: e }),
            },
            other => other,
        };
        self.state = s;
    }
}

/// How an action failed, as its driver saw it.
#[derive(Clone, Copy, Debug, PartialEq, Eq, Structural)]
pub enum ActionFailure {
    /// A file or directory that the action reads does not exist.
    NotFound,
    /// A program could not be launched or exited non-zero.
    ToolFailed,
    /// Any other input or output error.
    Io,
}

/// The error that a failed action stands for.
pub open spec fn error_of(a: Action, f: ActionFailure) -> ReleaseError {
    match a {
        Action::RunTool { .. } => ReleaseError::ExternalToolFailure,
        Action::ExpectFile { .. } => ReleaseError::PackagingInvariantViolation,
        Action::CopyFile { .. } | Action::Archive { .. } => if f == ActionFailure::NotFound {
            ReleaseError::InputMissing
        } else {
            ReleaseError::FilesystemError
        },
        _ => ReleaseError::FilesystemError,
    }
}

pub fn classify_failure(a: &Action, f: ActionFailure) -> (r: ReleaseError)
    ensures
        r == error_of(*a, f),
{
    match a {
        Action::RunTool { .. } => ReleaseError::ExternalToolFailure,
        Action::ExpectFile { .. } => ReleaseError::PackagingInvariantViolation,
        Action::CopyFile { .. } | Action::Archive { .. } => match f {
            ActionFailure::NotFound => ReleaseError::InputMissing,
            _ => ReleaseError::FilesystemError,
        },
        _ => ReleaseError::FilesystemError,
    }
}

/// What the execution of one step asks its driver to do next.
#[derive(Clone, Copy, Debug, PartialEq, Eq, Structural)]
pub enum StepDirective {
    /// Perform the action at `index` of the plan's actions.
    Perform { index: usize },
    /// Perform the action at `index` of the plan's cleanup; how it ends does not matter.
    CleanUp { index: usize },
    Succeeded,
    Failed(ReleaseError),
}

/// The execution of one step: its actions in order until one fails, then its cleanup.
pub struct StepRun {
    pub n_actions: usize,
    pub n_cleanup: usize,
    /// The actions before `next` succeeded.
    pub next: usize,
    /// The first error, once an action failed.
    pub error: Option<ReleaseError>,
    /// The cleanup actions before `cleaned` were performed.
    pub cleaned: usize,
}

impl StepRun {
    pub open spec fn well_formed(&self) -> bool {
        &&& self.next <= self.n_actions
        &&& self.cleaned <= self.n_cleanup
        &&& self.error is None ==> self.cleaned == 0
    }

    pub open spec fn spec_directive(&self) -> StepDirective {
        match self.error {
            None => if self.next < self.n_actions {
                StepDirective::Perform { index: self.next }
            } else {
                StepDirective::Succeeded
            },
            Some(e) => if self.cleaned < self.n_cleanup {
                StepDirective::CleanUp { index: self.cleaned }
            } else {
                StepDirective::Failed(e)
            },
        }
    }

    pub fn new(plan: &StepPlan) -> (r: StepRun)
        ensures
            r.n_actions == plan.actions.len(),
            r.n_cleanup == plan.cleanup.len(),
            r.next == 0,
            r.error is None,
            r.cleaned == 0,
            r.well_formed(),
    {
        StepRun { n_actions: plan.actions.len(), n_cleanup: plan.cleanup.len(), next: 0, error: None, cleaned: 0 }
    }

    pub fn directive(&self) -> (r: StepDirective)
        requires
            self.well_formed(),
        ensures
            r == self.spec_directive(),
    {
        match self.error {
            None => if self.next < self.n_actions {
                StepDirective::Perform { index: self.next }
            } else {
                StepDirective::Succeeded
            },
            Some(e) => if self.cleaned < self.n_cleanup {
                StepDirective::CleanUp { index: self.cleaned }
            } else {
                StepDirective::Failed(e)
            },
        }
    }

    /// Takes in how the work of the last directive ended: after a failed action the
    /// remaining actions are skipped and the cleanup runs; the first error is kept.
    pub fn report(&mut self, o: Outcome)
        requires
            old(self).well_formed(),
        ensures
            final(self).well_formed(),
            final(self).n_actions == old(self).n_actions,
            final(self).n_cleanup == old(self).n_cleanup,
            match old(self).spec_directive() {
                StepDirective::Perform { index } => match o {
                    Outcome::Succeeded => final(self).next == index + 1 && final(self).error is None
                        && final(self).cleaned == 0,
                    Outcome::Failed(e) => final(self).next == index && final(self).error == Some(e)
                        && final(self).cleaned == 0,
                },
                StepDirective::CleanUp { index } => final(self).next == old(self).next
                    && final(self).error == old(self).error && final(self).cleaned == index + 1,
                _ => *final(self) == *old(self),
            },
    {
        match self.error {
            None => if self.next < self.n_actions {
                match o {
                    Outcome::Succeeded => self.next = self.next + 1,
                    Outcome::Failed(e) => self.error = Some(e),
                }
            },
            Some(_) => if self.cleaned < self.n_cleanup {
                self.cleaned = self.cleaned + 1;
            },
        }
    }
}

/// The first failed step ends a run: the run is aborted with that step and its error named,
/// and an aborted run asks for no further step, whatever is reported to it afterwards.
pub proof fn lemma_first_failure_aborts(steps: Seq<Step>, next: usize, e: ReleaseError, o: Outcome)
    requires
        next < steps.len(),
    ensures
        next_run_state(steps, RunState::Packaging { next }, Outcome::Failed(e))
            == RunState::Aborted(Failure { step: Some(steps[next as int]), error: e }),
        next_run_state(
            steps,
            RunState::Aborted(Failure { step: Some(steps[next as int]), error: e }),
            o,
        ) == RunState::Aborted(Failure { step: Some(steps[next as int]), error: e }),
        run_directive(steps, RunState::Aborted(Failure { step: Some(steps[next as int]), error: e }))
            == Directive::Stopped(Failure { step: Some(steps[next as int]), error: e }),
{
}

/// A run asks for the steps in plan order: after the step at `next` succeeds, the next
/// directive runs the step that follows it, or finishes after the last one.
pub proof fn lemma_steps_in_order(steps: Seq<Step>, next: usize)
    requires
        next < steps.len() <= usize::MAX,
    ensures
        next + 1 < steps.len() ==> run_directive(
            steps,
            next_run_state(steps, RunState::Packaging { next }, Outcome::Succeeded),
        ) == (Directive::RunStep { index: (next + 1) as usize, step: steps[next + 1] }),
        next + 1 == steps.len() ==> run_directive(
            steps,
            next_run_state(steps, RunState::Packaging { next }, Outcome::Succeeded),
        ) == Directive::Finished,
{
}

} // verus!
