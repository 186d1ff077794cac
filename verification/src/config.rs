//! The start-up plan for the environment file: which file-system step comes
//! next, given how the last one went. The caller performs the steps; nothing
//! here touches the disk.

use vstd::prelude::*;

verus! {

/// Why the environment could not be set up.
#[derive(Clone, Copy, Debug, PartialEq, Eq, Structural)]
pub enum ConfigError {
    /// The platform names no configuration directory for the user.
    NoConfigDir,
    /// A step on the file system or the loading of a file failed.
    StepFailed,
    /// The caller reported an outcome that the step it was given cannot have.
    UnexpectedEvent,
}

/// What the caller has to do next.
#[derive(Clone, Copy, Debug, PartialEq, Eq, Structural)]
pub enum ConfigStep {
    /// Test whether the working directory holds an environment file.
    ProbeLocalFile,
    /// Load the environment file of the working directory.
    LoadLocalFile,
    /// Ask the platform for the user's configuration directory.
    FindConfigDir,
    /// Create the server's directory below the configuration directory.
    CreateConfigDir,
    /// Test whether the server's directory holds an environment file.
    ProbeUserFile,
    /// Write the built-in environment file into the server's directory.
    WriteDefaultFile,
    /// Load the environment file of the server's directory.
    LoadUserFile,
    /// The environment is set up.
    Done,
    /// The set-up was given up.
    Failed(ConfigError),
}

/// How a step went.
#[derive(Clone, Copy, Debug, PartialEq, Eq, Structural)]
pub enum ConfigEvent {
    /// A probe or a query found what it looked for, or did not.
    Found(bool),
    /// An action was carried out.
    Succeeded,
    /// An action could not be carried out.
    Errored,
}

impl ConfigStep {
    /// A step that ends the plan.
    pub open spec fn is_terminal(self) -> bool {
        self is Done || self is Failed
    }

    /// An upper bound on the number of steps still to come.
    pub open spec fn remaining(self) -> nat {
        match self {
            ConfigStep::ProbeLocalFile => 6,
            ConfigStep::FindConfigDir => 5,
            ConfigStep::CreateConfigDir => 4,
            ConfigStep::ProbeUserFile => 3,
            ConfigStep::WriteDefaultFile => 2,
            ConfigStep::LoadLocalFile => 1,
            ConfigStep::LoadUserFile => 1,
            ConfigStep::Done => 0,
            ConfigStep::Failed(_) => 0,
        }
    }

    /// Tests whether the plan has ended.
    pub fn finished(&self) -> (r: bool)
        ensures
            r == self.is_terminal(),
    {
        match self {
            ConfigStep::Done => true,
            ConfigStep::Failed(_) => true,
            _ => false,
        }
    }
}

/// The step that follows `step` once it went as `event` says.
///
/// A local file is loaded as it is. Without one, the file in the user's
/// configuration directory is loaded, after the directory was created and,
/// only if the file is missing, the built-in file was written there. The first
/// failure ends the plan.
pub open spec fn step_after(step: ConfigStep, event: ConfigEvent) -> ConfigStep {
    match (step, event) {
        (ConfigStep::Done, _) => ConfigStep::Done,
        (ConfigStep::Failed(e), _) => ConfigStep::Failed(e),
        (ConfigStep::ProbeLocalFile, ConfigEvent::Found(true)) => ConfigStep::LoadLocalFile,
        (ConfigStep::ProbeLocalFile, ConfigEvent::Found(false)) => ConfigStep::FindConfigDir,
        (ConfigStep::FindConfigDir, ConfigEvent::Found(true)) => ConfigStep::CreateConfigDir,
        (ConfigStep::FindConfigDir, ConfigEvent::Found(false)) => ConfigStep::Failed(
            ConfigError::NoConfigDir,
        ),
        (ConfigStep::ProbeUserFile, ConfigEvent::Found(true)) => ConfigStep::LoadUserFile,
        (ConfigStep::ProbeUserFile, ConfigEvent::Found(false)) => ConfigStep::WriteDefaultFile,
        (ConfigStep::CreateConfigDir, ConfigEvent::Succeeded) => ConfigStep::ProbeUserFile,
        (ConfigStep::WriteDefaultFile, ConfigEvent::Succeeded) => ConfigStep::LoadUserFile,
        (ConfigStep::LoadLocalFile, ConfigEvent::Succeeded) => ConfigStep::Done,
        (ConfigStep::LoadUserFile, ConfigEvent::Succeeded) => ConfigStep::Done,
        (ConfigStep::LoadLocalFile, ConfigEvent::Errored) => ConfigStep::Failed(
            ConfigError::StepFailed,
        ),
        (ConfigStep::CreateConfigDir, ConfigEvent::Errored) => ConfigStep::Failed(
            ConfigError::StepFailed,
        ),
        (ConfigStep::WriteDefaultFile, ConfigEvent::Errored) => ConfigStep::Failed(
            ConfigError::StepFailed,
        ),
        (ConfigStep::LoadUserFile, ConfigEvent::Errored) => ConfigStep::Failed(
            ConfigError::StepFailed,
        ),
        _ => ConfigStep::Failed(ConfigError::UnexpectedEvent),
    }
}

/// The step the plan starts with.
pub fn first_config_step() -> (step: ConfigStep)
    ensures
        step == ConfigStep::ProbeLocalFile,
{
    ConfigStep::ProbeLocalFile
}

/// Chooses the step that follows `step` once it went as `event` says.
pub fn next_config_step(step: ConfigStep, event: ConfigEvent) -> (next: ConfigStep)
    ensures
        next == step_after(step, event),
{
    match step {
        ConfigStep::Done => ConfigStep::Done,
        ConfigStep::Failed(e) => ConfigStep::Failed(e),
        ConfigStep::ProbeLocalFile => match event {
            ConfigEvent::Found(true) => ConfigStep::LoadLocalFile,
            ConfigEvent::Found(false) => ConfigStep::FindConfigDir,
            _ => ConfigStep::Failed(ConfigError::UnexpectedEvent),
        },
        ConfigStep::FindConfigDir => match event {
            ConfigEvent::Found(true) => ConfigStep::CreateConfigDir,
            ConfigEvent::Found(false) => ConfigStep::Failed(ConfigError::NoConfigDir),
            _ => ConfigStep::Failed(ConfigError::UnexpectedEvent),
        },
        ConfigStep::ProbeUserFile => match event {
            ConfigEvent::Found(true) => ConfigStep::LoadUserFile,
            ConfigEvent::Found(false) => ConfigStep::WriteDefaultFile,
            _ => ConfigStep::Failed(ConfigError::UnexpectedEvent),
        },
        ConfigStep::CreateConfigDir => match event {
            ConfigEvent::Succeeded => ConfigStep::ProbeUserFile,
            ConfigEvent::Errored => ConfigStep::Failed(ConfigError::StepFailed),
            _ => ConfigStep::Failed(ConfigError::UnexpectedEvent),
        },
        ConfigStep::WriteDefaultFile => match event {
            ConfigEvent::Succeeded => ConfigStep::LoadUserFile,
            ConfigEvent::Errored => ConfigStep::Failed(ConfigError::StepFailed),
            _ => ConfigStep::Failed(ConfigError::UnexpectedEvent),
        },
        ConfigStep::LoadLocalFile => match event {
            ConfigEvent::Succeeded => ConfigStep::Done,
            ConfigEvent::Errored => ConfigStep::Failed(ConfigError::StepFailed),
            _ => ConfigStep::Failed(ConfigError::UnexpectedEvent),
        },
        ConfigStep::LoadUserFile => match event {
            ConfigEvent::Succeeded => ConfigStep::Done,
            ConfigEvent::Errored => ConfigStep::Failed(ConfigError::StepFailed),
            _ => ConfigStep::Failed(ConfigError::UnexpectedEvent),
        },
    }
}

/// The plan ends: every step that does not end it is followed by one with
/// fewer steps to come, so no run takes more than six steps. A step that ends
/// the plan is followed by itself.
pub proof fn lemma_config_plan_ends(step: ConfigStep, event: ConfigEvent)
    ensures
        !step.is_terminal() ==> step_after(step, event).remaining() < step.remaining(),
        step.is_terminal() ==> step_after(step, event) == step,
        step.remaining() <= 6,
        step.is_terminal() <==> step.remaining() == 0,
{
}

/// The plan is done only when a file was loaded, and the built-in file is
/// written only where the user's directory was found to hold none.
pub proof fn lemma_config_plan_is_careful(step: ConfigStep, event: ConfigEvent)
    requires
        !step.is_terminal(),
    ensures
        step_after(step, event) is Done <==> (step is LoadLocalFile || step is LoadUserFile)
            && event is Succeeded,
        step_after(step, event) is WriteDefaultFile <==> step is ProbeUserFile && event
            == ConfigEvent::Found(false),
        step_after(step, event) is LoadLocalFile <==> step is ProbeLocalFile && event
            == ConfigEvent::Found(true),
{
}

} // verus!
