//! The commands, and what is checked before a file is renamed by hand.

use vstd::prelude::*;
use crate::configs::config::Config;
use crate::manager::ai::{OpenAI, OpenAIView};
pub use crate::manager::image::is_image;
use crate::manager::image::{is_image_path, SSManager};
use crate::text::{chars_of, same_chars, trim, trimmed};

verus! {

/// What the program can be asked to do.
#[derive(Debug, Clone)]
pub enum Commands {
    Start,
    Stop,
    Restart,
    Status,
    CurrentConfig,
    ViewPromptFile,
    EditConfig,
    ProcessExistingScreenshots,
    Rename { file_path: String },
    Daemon,
    InfoLogs,
    ErrorLogs,
}

/// The arguments of one run of the program.
#[derive(Debug, Clone)]
pub struct Args {
    pub command: Commands,
}

/// Why a file is not renamed by hand.
#[derive(Debug, Clone)]
pub enum RenameRefusal {
    /// The configuration lacks the credential, the prompt file or the model.
    NotReady,
    /// The file's extension is not that of an image format.
    NotAnImage { file_name: String },
}

/// Whether the user's answer means yes: it is `y`, whatever white space
/// stands around it.
pub fn confirmed(input: &str) -> (yes: bool)
    ensures
        yes == (trim(input@) == "y"@),
{
    let cs = chars_of(input);
    let answer = trimmed(cs.as_slice());
    let wanted = chars_of("y");
    same_chars(answer.as_slice(), wanted.as_slice())
}

/// The manager that renames `file_name` by hand, where `config` is ready
/// and the file is an image; `prompt` is what the configured prompt file
/// holds. Readiness is looked at first.
pub fn rename_file(config: &Config, prompt: String, file_name: &str) -> (manager: Result<
    SSManager,
    RenameRefusal,
>)
    ensures
        match manager {
            Ok(m) => config.is_ready() && is_image_path(file_name@) && m.provider()@ == (
            OpenAIView {
                api_key: config.openai_api_key->0@,
                prompt: prompt@,
                model: config.openai_model->0@,
            }),
            Err(RenameRefusal::NotReady) => !config.is_ready(),
            Err(RenameRefusal::NotAnImage { file_name: f }) => config.is_ready() && !is_image_path(
                file_name@,
            ) && f@ == file_name@,
        },
{
    if !config.ready() {
        return Err(RenameRefusal::NotReady);
    }
    if !is_image(file_name) {
        return Err(RenameRefusal::NotAnImage { file_name: file_name.to_owned() });
    }
    match (config.get_openai_api_key(), config.get_openai_model()) {
        (Some(api_key), Some(model)) => Ok(SSManager::new(OpenAI::new(api_key, prompt, model))),
        _ => Err(RenameRefusal::NotReady),
    }
}

impl Args {
    /// The arguments that ask for `command`.
    pub fn new(command: Commands) -> (args: Self)
        ensures
            args.command == command,
    {
        Self { command }
    }

    /// The command that is to be carried out. Which handler carries it out
    /// is decided by its variant alone.
    pub fn execute(&self) -> (command: &Commands)
        ensures
            *command == self.command,
    {
        &self.command
    }
}

} // verus!
