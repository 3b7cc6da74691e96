use vstd::prelude::*;

verus! {

/// The git client commands that the tool runs.
#[derive(Clone, Copy, Debug, PartialEq, Eq, Structural)]
pub enum GitCommand {
    Clone,
    Checkout,
    Reset,
    Add,
    Commit,
}

/// Everything that ends a run unsuccessfully.
#[derive(Clone, Copy, Debug, PartialEq, Eq, Structural)]
pub enum ToolError {
    /// The configuration file does not exist.
    ConfigMissing,
    /// A name is registered both as a skeleton and as a script.
    ConfigOverlap,
    /// The embedded repository library failed where no fallback exists.
    EmbeddedClientError,
    /// A git command could not be started.
    ExternalCommandLaunchFailed(GitCommand),
    /// A git command ran and reported failure.
    ExternalCommandNonZero(GitCommand),
    /// A skeleton subcommand was given no output directory.
    MissingOutputDirectory,
    /// A script ended without an exit code (it was killed by a signal).
    ChildExitCodeUnavailable,
    /// The provisioning sequence was handed an event it was not waiting for.
    UnexpectedEvent,
}

/// The process exit status that reports an error: always one.
pub open spec fn error_exit_code(e: ToolError) -> int {
    1
}

impl ToolError {
    /// The exit status with which the tool ends after this error.
    pub fn exit_code(&self) -> (r: i32)
        ensures
            r == error_exit_code(*self),
            r != 0,
    {
        1
    }

    /// A one-line description for the diagnostic printed on standard error.
    pub fn describe(&self) -> (r: &'static str) {
        match self {
            ToolError::ConfigMissing => "configuration file not found",
            ToolError::ConfigOverlap => "overlap between skeletons and scripts",
            ToolError::EmbeddedClientError => "the repository library failed",
            ToolError::ExternalCommandLaunchFailed(_) => "a git command could not be started",
            ToolError::ExternalCommandNonZero(_) => "a git command failed",
            ToolError::MissingOutputDirectory =>
                "failed to provide a path to clone the skeleton directory into",
            ToolError::ChildExitCodeUnavailable => "the script ended without an exit code",
            ToolError::UnexpectedEvent => "provisioning received an unexpected event",
        }
    }
}

impl GitCommand {
    /// The git subcommand word, for diagnostics.
    pub fn word(&self) -> (r: &'static str) {
        match self {
            GitCommand::Clone => "clone",
            GitCommand::Checkout => "checkout",
            GitCommand::Reset => "reset",
            GitCommand::Add => "add",
            GitCommand::Commit => "commit",
        }
    }
}

} // verus!
