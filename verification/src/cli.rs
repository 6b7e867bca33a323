use vstd::prelude::*;
use crate::errors::{ResolveError, ErrorModel};

verus! {

/// A validation-only run against a template description file.
#[derive(Debug, Clone, PartialEq, Eq)]
pub enum Command {
    Validate { path: String },
}

/// The command-line request, reduced to the plain values the pipeline
/// reads. Argument parsing itself is outside this crate.
#[derive(Debug, Clone, PartialEq, Eq)]
pub struct Cli {
    /// Template to use: a local path or a URL pointing to a Git repository.
    pub template: Option<String>,
    /// Where to output the project.
    pub output_dir: String,
    /// The subdirectory of the given folder/repository to use as the
    /// template, if any.
    pub directory: Option<String>,
    /// Path of a JSON file with variable values; must not be combined with
    /// `no_input`.
    pub input_file: Option<String>,
    /// Resolve every variable to its computed default, without prompting.
    pub no_input: bool,
    /// Whether to run the generation hooks.
    pub run_hooks: bool,
    pub command: Option<Command>,
}

/// Which of the three input sources a run draws its values from. Exactly
/// one is active per run.
#[derive(Debug, Clone, PartialEq, Eq)]
pub enum InputMode {
    /// Values come from the JSON file at this path.
    FromFile(String),
    /// Every applicable variable takes its computed default.
    Automatic,
    /// Values are asked interactively.
    Interactive,
}

/// Mathematical model of an [`InputMode`].
pub ghost enum InputModeModel {
    FromFile(Seq<char>),
    Automatic,
    Interactive,
}

impl View for InputMode {
    type V = InputModeModel;

    open spec fn view(&self) -> InputModeModel {
        match self {
            InputMode::FromFile(p) => InputModeModel::FromFile(p@),
            InputMode::Automatic => InputModeModel::Automatic,
            InputMode::Interactive => InputModeModel::Interactive,
        }
    }
}

/// Picks the single active input source: a JSON input file and automatic
/// mode cannot be combined; a JSON file otherwise selects file input;
/// otherwise the choice is between automatic and interactive resolution.
pub fn choose_mode(input_file: &Option<String>, no_input: bool) -> (r: Result<
    InputMode,
    ResolveError,
>)
    ensures
        match input_file {
            Some(p) => {
                if no_input {
                    r matches Err(e) && e@ == ErrorModel::ConflictingModes
                } else {
                    r matches Ok(m) && m@ == InputModeModel::FromFile(p@)
                }
            },
            None => {
                if no_input {
                    r matches Ok(m) && m@ == InputModeModel::Automatic
                } else {
                    r matches Ok(m) && m@ == InputModeModel::Interactive
                }
            },
        },
{
    match input_file {
        Some(p) => {
            if no_input {
                Err(ResolveError::ConflictingModes)
            } else {
                Ok(InputMode::FromFile(p.clone()))
            }
        },
        None => {
            if no_input {
                Ok(InputMode::Automatic)
            } else {
                Ok(InputMode::Interactive)
            }
        },
    }
}

} // verus!
