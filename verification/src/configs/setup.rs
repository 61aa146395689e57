//! What a first run puts in place: the directory of the program, a default
//! prompt, an empty configuration, and the defaults of a configuration that
//! lacks them.

use vstd::prelude::*;
use crate::configs::config::{is_set, Config};
use crate::daemon::pid::APP_DIRECTORY;
use crate::paths::{join, path_join};

verus! {

/// The name of the configuration file.
pub const CONFIG_FILE: &'static str = "peeksy_config.json";

/// The name of the prompt file.
pub const PROMPT_FILE: &'static str = "prompt.txt";

/// The model that is asked where none is configured.
pub const DEFAULT_MODEL: &'static str = "gpt-4o";

/// What a configuration file holds when it is first made.
pub const EMPTY_CONFIG: &'static str = "{\n  \"openai_api_key\": \"\"\n}";

/// The prompt that is written where there is none.
pub const DEFAULT_PROMPT: &'static str =
    "\n    Analyze the attached image and generate a short, descriptive filename that clearly reflects its subject, context, and content.\n    Rules:\n        1. Use lowercase letters only. Separate words with hyphens. No spaces or underscores.\n        2. Keep the filename between 3 to 8 words. Be concise but meaningful.\n        3. Apply intelligent context recognition:\n            - If it is an album cover, include the album title and band or artist name.\n            - If it is artwork, mention the style (e.g., oil-painting, digital-art, 3d-render).\n            - If it's a poster, include the movie/show/event name.\n        4. Avoid generic terms like \"image\", \"picture\", \"photo\", or \"screenshot\".\n        5. Do not include the file extension (e.g., .jpg or .png) in the output.\n    \n    Return only the final filename string, with no extra explanation or punctuation.";

/// What is there before the setup.
#[derive(Clone, Copy, Debug, PartialEq, Eq, Structural)]
pub struct SetupProbe {
    pub prompt_exists: bool,
    pub directory_exists: bool,
    pub config_exists: bool,
}

/// What the setup is to put in place.
#[derive(Clone, Copy, Debug, PartialEq, Eq, Structural)]
pub struct SetupPlan {
    /// Write the default prompt to the prompt file.
    pub write_prompt: bool,
    /// Make the directory of the program.
    pub create_directory: bool,
    /// Write the empty configuration to the configuration file.
    pub write_config: bool,
}

/// The path of the program's file `name`, given the user's configuration
/// directory.
pub open spec fn app_file(config_dir: Seq<char>, name: Seq<char>) -> Seq<char> {
    path_join(path_join(config_dir, APP_DIRECTORY@), name)
}

/// Where the configuration is kept, given the user's configuration
/// directory.
pub fn get_config_path(config_dir: &str) -> (path: String)
    ensures
        path@ == app_file(config_dir@, CONFIG_FILE@),
{
    let parent = join(config_dir, APP_DIRECTORY);
    join(parent.as_str(), CONFIG_FILE)
}

/// Where the prompt is kept, given the user's configuration directory.
pub fn get_prompt_path(config_dir: &str) -> (path: String)
    ensures
        path@ == app_file(config_dir@, PROMPT_FILE@),
{
    let parent = join(config_dir, APP_DIRECTORY);
    join(parent.as_str(), PROMPT_FILE)
}

/// Whether the default prompt is to be written: only where there is no
/// prompt file yet.
pub fn initial_prompt_setup(prompt_exists: bool) -> (write: bool)
    ensures
        write == !prompt_exists,
{
    !prompt_exists
}

/// Whether the directory is to be made and the empty configuration
/// written: each only where it is missing.
pub fn initial_path_setup(directory_exists: bool, config_exists: bool) -> (plan: SetupPlan)
    ensures
        plan == (SetupPlan {
            write_prompt: false,
            create_directory: !directory_exists,
            write_config: !config_exists,
        }),
{
    SetupPlan {
        write_prompt: false,
        create_directory: !directory_exists,
        write_config: !config_exists,
    }
}

/// What a first run puts in place, given what is there: whatever is
/// missing, and nothing that exists is overwritten.
pub fn initial_setup(probe: SetupProbe) -> (plan: SetupPlan)
    ensures
        plan == (SetupPlan {
            write_prompt: !probe.prompt_exists,
            create_directory: !probe.directory_exists,
            write_config: !probe.config_exists,
        }),
{
    let paths = initial_path_setup(probe.directory_exists, probe.config_exists);
    SetupPlan {
        write_prompt: initial_prompt_setup(probe.prompt_exists),
        create_directory: paths.create_directory,
        write_config: paths.write_config,
    }
}

/// Fills in what `config` lacks: the default prompt file where no prompt
/// file is set, the default model where no model is set. The credential is
/// never touched. The result says whether anything was filled in, that is,
/// whether the configuration is to be saved.
pub fn default_config_setup(config: &mut Config, config_dir: &str) -> (changed: bool)
    ensures
        final(config).openai_api_key == old(config).openai_api_key,
        if is_set(old(config).openai_prompt_file_path) {
            final(config).openai_prompt_file_path == old(config).openai_prompt_file_path
        } else {
            final(config).openai_prompt_file_path is Some
                && final(config).openai_prompt_file_path->0@ == app_file(
                config_dir@,
                PROMPT_FILE@,
            )
        },
        if is_set(old(config).openai_model) {
            final(config).openai_model == old(config).openai_model
        } else {
            final(config).openai_model is Some && final(config).openai_model->0@
                == DEFAULT_MODEL@
        },
        changed == (!is_set(old(config).openai_prompt_file_path) || !is_set(
            old(config).openai_model,
        )),
{
    let mut changed = false;
    if !config.openai_prompt_file_path_exists() {
        config.openai_prompt_file_path = Some(get_prompt_path(config_dir));
        changed = true;
    }
    if !config.openai_model_exists() {
        config.openai_model = Some(DEFAULT_MODEL.to_owned());
        changed = true;
    }
    changed
}

} // verus!
