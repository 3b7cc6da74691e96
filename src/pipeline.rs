use vstd::prelude::*;
use crate::commit_id::{short_commit_id, short_id, SHORT_ID_LEN};
use crate::config::SkeletonSpec;
use crate::dispatch::strings_view;
use crate::error::{GitCommand, ToolError};
use crate::process::ProcessOutcome;

verus! {

/// Where a provisioning run stands: which outside operation it waits on.
#[derive(Clone, Copy, Debug, PartialEq, Eq, Structural)]
pub enum Stage {
    /// Waiting on the embedded library's clone.
    Cloning,
    /// Waiting on `git clone`, after the embedded clone failed.
    FallbackCloning,
    /// Waiting on the library to open the directory that `git clone` made.
    Reopening,
    /// Waiting on `git checkout <branch>`.
    CheckingOut,
    /// Waiting on the library to delete the remote `origin`.
    DetachingOrigin,
    /// Waiting on the library's walk for the oldest commit.
    FindingOldest,
    /// Waiting on `git reset --mixed <oldest>`.
    Resetting,
    /// Waiting on `git add --all`.
    Staging,
    /// Waiting on `git commit --amend`.
    Committing,
    /// The project is provisioned.
    Done,
    /// The run stopped on an error.
    Failed,
}

/// What the outside world reports back after a step.
#[derive(Debug)]
pub enum Event {
    /// The requested call into the repository library succeeded.
    LibraryOk,
    /// The requested call into the repository library failed.
    LibraryFailed,
    /// The requested git command finished.
    CommandFinished(ProcessOutcome),
    /// The raw id of the oldest commit reachable from HEAD.
    OldestCommit(Vec<u8>),
}

/// The mathematical form of an `Event`.
pub enum EventView {
    LibraryOk,
    LibraryFailed,
    CommandFinished(ProcessOutcome),
    OldestCommit(Seq<u8>),
}

impl View for Event {
    type V = EventView;

    open spec fn view(&self) -> EventView {
        match self {
            Event::LibraryOk => EventView::LibraryOk,
            Event::LibraryFailed => EventView::LibraryFailed,
            Event::CommandFinished(o) => EventView::CommandFinished(*o),
            Event::OldestCommit(id) => EventView::OldestCommit(id@),
        }
    }
}

/// The outside operation that a provisioning run asks for next.
#[derive(Debug)]
pub enum Step {
    /// Clone `source` into `destination` with the embedded library.
    CloneEmbedded { source: String, destination: String },
    /// Open the repository at `path` with the embedded library.
    OpenRepository { path: String },
    /// Run `git` with `args` in `directory`.
    RunGit { command: GitCommand, args: Vec<String>, directory: String },
    /// Delete the remote called `remote` from the repository.
    RemoveRemote { remote: String },
    /// Walk the history from HEAD by commit time and report the oldest commit.
    FindOldestCommit,
    /// End the process with `code`.
    Exit { code: i32 },
    /// Stop with this error.
    Abort(ToolError),
}

/// The mathematical form of a `Step`.
pub enum StepView {
    CloneEmbedded { source: Seq<char>, destination: Seq<char> },
    OpenRepository { path: Seq<char> },
    RunGit { command: GitCommand, args: Seq<Seq<char>>, directory: Seq<char> },
    RemoveRemote { remote: Seq<char> },
    FindOldestCommit,
    Exit { code: int },
    Abort(ToolError),
}

impl View for Step {
    type V = StepView;

    open spec fn view(&self) -> StepView {
        match self {
            Step::CloneEmbedded { source, destination } =>
                StepView::CloneEmbedded { source: source@, destination: destination@ },
            Step::OpenRepository { path } => StepView::OpenRepository { path: path@ },
            Step::RunGit { command, args, directory } =>
                StepView::RunGit { command: *command, args: strings_view(args@), directory: directory@ },
            Step::RemoveRemote { remote } => StepView::RemoveRemote { remote: remote@ },
            Step::FindOldestCommit => StepView::FindOldestCommit,
            Step::Exit { code } => StepView::Exit { code: *code as int },
            Step::Abort(e) => StepView::Abort(*e),
        }
    }
}

/// One run that turns a skeleton into a fresh project in `output_dir`: clone,
/// check out `branch`, drop the remote `origin`, and squash the history into one
/// commit. A run that fails leaves whatever the clone created where it is.
#[derive(Debug)]
pub struct Provisioning {
    pub name: String,
    pub source: String,
    pub branch: String,
    pub output_dir: String,
    pub stage: Stage,
}

/// The mathematical form of a `Provisioning`.
pub struct ProvisioningView {
    pub name: Seq<char>,
    pub source: Seq<char>,
    pub branch: Seq<char>,
    pub output_dir: Seq<char>,
    pub stage: Stage,
}

impl View for Provisioning {
    type V = ProvisioningView;

    open spec fn view(&self) -> ProvisioningView {
        ProvisioningView {
            name: self.name@,
            source: self.source@,
            branch: self.branch@,
            output_dir: self.output_dir@,
            stage: self.stage,
        }
    }
}

/// The message of the single commit that a provisioned project starts with.
pub open spec fn commit_message(name: Seq<char>) -> Seq<char> {
    "initialized from "@ + name + " skeleton"@
}

/// The arguments handed to `git` for `command` in run `p`; `oldest` is the
/// raw id of the oldest commit, used by the reset.
pub open spec fn git_args(p: ProvisioningView, command: GitCommand, oldest: Seq<u8>) -> Seq<Seq<char>> {
    match command {
        GitCommand::Clone => seq!["clone"@, p.source, p.output_dir],
        GitCommand::Checkout => seq!["checkout"@, p.branch],
        GitCommand::Reset => seq!["reset"@, "--mixed"@, short_id(oldest)],
        GitCommand::Add => seq!["add"@, "--all"@],
        GitCommand::Commit => seq!["commit"@, "--amend"@, "-am"@, commit_message(p.name)],
    }
}

/// The git command of run `p`, run inside its output directory (the clone runs
/// where the tool was started).
pub open spec fn git_step(p: ProvisioningView, command: GitCommand, oldest: Seq<u8>) -> StepView {
    StepView::RunGit {
        command,
        args: git_args(p, command, oldest),
        directory: if command == GitCommand::Clone { "."@ } else { p.output_dir },
    }
}

/// After a git command: go on to `next` with `step` on success, else fail.
pub open spec fn after_command(
    command: GitCommand,
    outcome: ProcessOutcome,
    next: Stage,
    step: StepView,
) -> (Stage, StepView) {
    match outcome {
        ProcessOutcome::Success => (next, step),
        ProcessOutcome::NonZeroExit =>
            (Stage::Failed, StepView::Abort(ToolError::ExternalCommandNonZero(command))),
        ProcessOutcome::LaunchFailed =>
            (Stage::Failed, StepView::Abort(ToolError::ExternalCommandLaunchFailed(command))),
    }
}

/// The first step of every run: the embedded clone.
pub open spec fn first_step(p: ProvisioningView) -> StepView {
    StepView::CloneEmbedded { source: p.source, destination: p.output_dir }
}

/// The next stage and the next step of run `p` once `e` has been reported.
pub open spec fn transition(p: ProvisioningView, e: EventView) -> (Stage, StepView) {
    let none = Seq::<u8>::empty();
    match p.stage {
        Stage::Cloning => match e {
            EventView::LibraryOk => (Stage::CheckingOut, git_step(p, GitCommand::Checkout, none)),
            EventView::LibraryFailed => (Stage::FallbackCloning, git_step(p, GitCommand::Clone, none)),
            _ => (Stage::Failed, StepView::Abort(ToolError::UnexpectedEvent)),
        },
        Stage::FallbackCloning => match e {
            EventView::CommandFinished(o) => after_command(
                GitCommand::Clone,
                o,
                Stage::Reopening,
                StepView::OpenRepository { path: p.output_dir },
            ),
            _ => (Stage::Failed, StepView::Abort(ToolError::UnexpectedEvent)),
        },
        Stage::Reopening => match e {
            EventView::LibraryOk => (Stage::CheckingOut, git_step(p, GitCommand::Checkout, none)),
            EventView::LibraryFailed => (Stage::Failed, StepView::Abort(ToolError::EmbeddedClientError)),
            _ => (Stage::Failed, StepView::Abort(ToolError::UnexpectedEvent)),
        },
        Stage::CheckingOut => match e {
            EventView::CommandFinished(o) => after_command(
                GitCommand::Checkout,
                o,
                Stage::DetachingOrigin,
                StepView::RemoveRemote { remote: "origin"@ },
            ),
            _ => (Stage::Failed, StepView::Abort(ToolError::UnexpectedEvent)),
        },
        Stage::DetachingOrigin => match e {
            EventView::LibraryOk => (Stage::FindingOldest, StepView::FindOldestCommit),
            EventView::LibraryFailed => (Stage::Failed, StepView::Abort(ToolError::EmbeddedClientError)),
            _ => (Stage::Failed, StepView::Abort(ToolError::UnexpectedEvent)),
        },
        Stage::FindingOldest => match e {
            EventView::OldestCommit(id) => if 2 * id.len() >= SHORT_ID_LEN {
                (Stage::Resetting, git_step(p, GitCommand::Reset, id))
            } else {
                (Stage::Failed, StepView::Abort(ToolError::EmbeddedClientError))
            },
            EventView::LibraryFailed => (Stage::Failed, StepView::Abort(ToolError::EmbeddedClientError)),
            _ => (Stage::Failed, StepView::Abort(ToolError::UnexpectedEvent)),
        },
        Stage::Resetting => match e {
            EventView::CommandFinished(o) =>
                after_command(GitCommand::Reset, o, Stage::Staging, git_step(p, GitCommand::Add, none)),
            _ => (Stage::Failed, StepView::Abort(ToolError::UnexpectedEvent)),
        },
        Stage::Staging => match e {
            EventView::CommandFinished(o) =>
                after_command(GitCommand::Add, o, Stage::Committing, git_step(p, GitCommand::Commit, none)),
            _ => (Stage::Failed, StepView::Abort(ToolError::UnexpectedEvent)),
        },
        Stage::Committing => match e {
            EventView::CommandFinished(o) =>
                after_command(GitCommand::Commit, o, Stage::Done, StepView::Exit { code: 0 }),
            _ => (Stage::Failed, StepView::Abort(ToolError::UnexpectedEvent)),
        },
        Stage::Done => (Stage::Done, StepView::Exit { code: 0 }),
        Stage::Failed => (Stage::Failed, StepView::Abort(ToolError::UnexpectedEvent)),
    }
}

impl Provisioning {
    /// Begins provisioning skeleton `spec` into `output_dir`; the first step is
    /// the embedded clone.
    pub fn start(spec: &SkeletonSpec, output_dir: String) -> (r: (Provisioning, Step))
        ensures
            r.0.name@ == spec.name@,
            r.0.source@ == spec.source@,
            r.0.branch@ == spec.branch@,
            r.0.output_dir@ == output_dir@,
            r.0.stage == Stage::Cloning,
            r.1@ == first_step(r.0@),
    {
        let p = Provisioning {
            name: spec.name.clone(),
            source: spec.source.clone(),
            branch: spec.branch.clone(),
            output_dir,
            stage: Stage::Cloning,
        };
        let step = Step::CloneEmbedded { source: p.source.clone(), destination: p.output_dir.clone() };
        (p, step)
    }

    /// The git command `command` of this run; `oldest` is used by the reset only.
    fn git_command(&self, command: GitCommand, oldest: &Vec<u8>) -> (r: Step)
        requires
            command == GitCommand::Reset ==> 2 * oldest@.len() >= SHORT_ID_LEN,
        ensures
            r@ == git_step(self@, command, oldest@),
    {
        let mut args: Vec<String> = Vec::new();
        match command {
            GitCommand::Clone => {
                args.push(String::from_str("clone"));
                args.push(self.source.clone());
                args.push(self.output_dir.clone());
            },
            GitCommand::Checkout => {
                args.push(String::from_str("checkout"));
                args.push(self.branch.clone());
            },
            GitCommand::Reset => {
                args.push(String::from_str("reset"));
                args.push(String::from_str("--mixed"));
                args.push(short_commit_id(oldest));
            },
            GitCommand::Add => {
                args.push(String::from_str("add"));
                args.push(String::from_str("--all"));
            },
            GitCommand::Commit => {
                args.push(String::from_str("commit"));
                args.push(String::from_str("--amend"));
                args.push(String::from_str("-am"));
                let message = String::from_str("initialized from ").concat(self.name.as_str()).concat(
                    " skeleton",
                );
                args.push(message);
            },
        }
        let directory = match command {
            GitCommand::Clone => String::from_str("."),
            _ => self.output_dir.clone(),
        };
        proof {
            assert(strings_view(args@) =~= git_args(self@, command, oldest@));
        }
        Step::RunGit { command, args, directory }
    }

    /// Records `event`, the report on the last step, and returns the next step.
    pub fn advance(&mut self, event: Event) -> (r: Step)
        ensures
            final(self).name == old(self).name,
            final(self).source == old(self).source,
            final(self).branch == old(self).branch,
            final(self).output_dir == old(self).output_dir,
            (final(self).stage, r@) == transition(old(self)@, event@),
    {
        let none: Vec<u8> = Vec::new();
        let (stage, step) = match self.stage {
            Stage::Cloning => match event {
                Event::LibraryOk => (Stage::CheckingOut, self.git_command(GitCommand::Checkout, &none)),
                Event::LibraryFailed => (Stage::FallbackCloning, self.git_command(GitCommand::Clone, &none)),
                _ => (Stage::Failed, Step::Abort(ToolError::UnexpectedEvent)),
            },
            Stage::FallbackCloning => match event {
                Event::CommandFinished(o) => settle(
                    GitCommand::Clone,
                    o,
                    Stage::Reopening,
                    Step::OpenRepository { path: self.output_dir.clone() },
                ),
                _ => (Stage::Failed, Step::Abort(ToolError::UnexpectedEvent)),
            },
            Stage::Reopening => match event {
                Event::LibraryOk => (Stage::CheckingOut, self.git_command(GitCommand::Checkout, &none)),
                Event::LibraryFailed => (Stage::Failed, Step::Abort(ToolError::EmbeddedClientError)),
                _ => (Stage::Failed, Step::Abort(ToolError::UnexpectedEvent)),
            },
            Stage::CheckingOut => match event {
                Event::CommandFinished(o) => settle(
                    GitCommand::Checkout,
                    o,
                    Stage::DetachingOrigin,
                    Step::RemoveRemote { remote: String::from_str("origin") },
                ),
                _ => (Stage::Failed, Step::Abort(ToolError::UnexpectedEvent)),
            },
            Stage::DetachingOrigin => match event {
                Event::LibraryOk => (Stage::FindingOldest, Step::FindOldestCommit),
                Event::LibraryFailed => (Stage::Failed, Step::Abort(ToolError::EmbeddedClientError)),
                _ => (Stage::Failed, Step::Abort(ToolError::UnexpectedEvent)),
            },
            Stage::FindingOldest => match event {
                Event::OldestCommit(id) => if id.len() >= 4 {
                    (Stage::Resetting, self.git_command(GitCommand::Reset, &id))
                } else {
                    (Stage::Failed, Step::Abort(ToolError::EmbeddedClientError))
                },
                Event::LibraryFailed => (Stage::Failed, Step::Abort(ToolError::EmbeddedClientError)),
                _ => (Stage::Failed, Step::Abort(ToolError::UnexpectedEvent)),
            },
            Stage::Resetting => match event {
                Event::CommandFinished(o) => {
                    let next = self.git_command(GitCommand::Add, &none);
                    settle(GitCommand::Reset, o, Stage::Staging, next)
                },
                _ => (Stage::Failed, Step::Abort(ToolError::UnexpectedEvent)),
            },
            Stage::Staging => match event {
                Event::CommandFinished(o) => {
                    let next = self.git_command(GitCommand::Commit, &none);
                    settle(GitCommand::Add, o, Stage::Committing, next)
                },
                _ => (Stage::Failed, Step::Abort(ToolError::UnexpectedEvent)),
            },
            Stage::Committing => match event {
                Event::CommandFinished(o) =>
                    settle(GitCommand::Commit, o, Stage::Done, Step::Exit { code: 0 }),
                _ => (Stage::Failed, Step::Abort(ToolError::UnexpectedEvent)),
            },
            Stage::Done => (Stage::Done, Step::Exit { code: 0 }),
            Stage::Failed => (Stage::Failed, Step::Abort(ToolError::UnexpectedEvent)),
        };
        self.stage = stage;
        step
    }

}

/// Goes on to `next` with `step` when `command` succeeded, else fails.
fn settle(command: GitCommand, outcome: ProcessOutcome, next: Stage, step: Step) -> (r: (Stage, Step))
    ensures
        (r.0, r.1@) == after_command(command, outcome, next, step@),
{
    match outcome {
        ProcessOutcome::Success => (next, step),
        ProcessOutcome::NonZeroExit => (Stage::Failed, Step::Abort(ToolError::ExternalCommandNonZero(command))),
        ProcessOutcome::LaunchFailed => (
            Stage::Failed,
            Step::Abort(ToolError::ExternalCommandLaunchFailed(command)),
        ),
    }
}

} // verus!
