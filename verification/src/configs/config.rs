//! The configuration: the credential, the prompt file and the model that
//! captions are asked with. Reading and writing the file that holds it is
//! left to the caller.

use vstd::prelude::*;
use crate::text::{trim, trimmed_text};

verus! {

/// What the user has configured.
#[derive(Debug, Clone)]
pub struct Config {
    pub openai_api_key: Option<String>,
    pub openai_prompt_file_path: Option<String>,
    pub openai_model: Option<String>,
}

/// Whether `value` is set: it is there and not empty.
pub open spec fn is_set(value: Option<String>) -> bool {
    match value {
        Some(text) => text@.len() > 0,
        None => false,
    }
}

/// What an answer of the user means: nothing where it is empty once the
/// white space around it is taken away, and what is left otherwise.
pub open spec fn answer_of(input: Seq<char>) -> Option<Seq<char>> {
    if trim(input).len() == 0 {
        None
    } else {
        Some(trim(input))
    }
}

/// The value after an answer: the answer where there is one, and the value
/// as it was otherwise.
pub open spec fn answered(before: Option<String>, after: Option<String>, input: Seq<char>) -> bool {
    match answer_of(input) {
        Some(answer) => after is Some && after->0@ == answer,
        None => after == before,
    }
}

/// Whether `value` is set.
fn holds_text(value: &Option<String>) -> (r: bool)
    ensures
        r == is_set(*value),
{
    match value {
        Some(text) => text.as_str().unicode_len() > 0,
        None => false,
    }
}

/// What the answer `input` means.
pub fn read_answer(input: &str) -> (answer: Option<String>)
    ensures
        match answer {
            Some(a) => answer_of(input@) == Some(a@),
            None => answer_of(input@) is None,
        },
{
    let text = trimmed_text(input);
    if text.as_str().unicode_len() == 0 {
        None
    } else {
        Some(text)
    }
}

impl Config {
    /// Whether the daemon can start: the credential, the prompt file and
    /// the model are all set.
    pub open spec fn is_ready(&self) -> bool {
        is_set(self.openai_api_key) && is_set(self.openai_prompt_file_path) && is_set(
            self.openai_model,
        )
    }

    /// Whether the daemon can start with this configuration.
    pub fn ready(&self) -> (r: bool)
        ensures
            r == self.is_ready(),
    {
        if !self.openai_api_key_exists() {
            return false;
        }
        if !self.openai_prompt_file_path_exists() {
            return false;
        }
        if !self.openai_model_exists() {
            return false;
        }
        true
    }

    /// Whether a model is set.
    pub fn openai_model_exists(&self) -> (r: bool)
        ensures
            r == is_set(self.openai_model),
    {
        holds_text(&self.openai_model)
    }

    /// Whether a credential is set.
    pub fn openai_api_key_exists(&self) -> (r: bool)
        ensures
            r == is_set(self.openai_api_key),
    {
        holds_text(&self.openai_api_key)
    }

    /// Whether a prompt file is set.
    pub fn openai_prompt_file_path_exists(&self) -> (r: bool)
        ensures
            r == is_set(self.openai_prompt_file_path),
    {
        holds_text(&self.openai_prompt_file_path)
    }

    /// The credential.
    pub fn get_openai_api_key(&self) -> (key: Option<String>)
        ensures
            key == self.openai_api_key,
    {
        self.openai_api_key.clone()
    }

    /// The path of the prompt file.
    pub fn get_openai_prompt_file_path(&self) -> (path: Option<String>)
        ensures
            path == self.openai_prompt_file_path,
    {
        self.openai_prompt_file_path.clone()
    }

    /// The model.
    pub fn get_openai_model(&self) -> (model: Option<String>)
        ensures
            model == self.openai_model,
    {
        self.openai_model.clone()
    }

    /// Takes the user's three answers, for the credential, the prompt file
    /// and the model in turn. An answer that is empty once trimmed keeps
    /// the value as it is; any other answer replaces it. The result says
    /// whether anything was answered, that is, whether the configuration is
    /// to be saved.
    pub fn edit_config(&mut self, key_input: &str, path_input: &str, model_input: &str) -> (updated:
        bool)
        ensures
            answered(old(self).openai_api_key, final(self).openai_api_key, key_input@),
            answered(
                old(self).openai_prompt_file_path,
                final(self).openai_prompt_file_path,
                path_input@,
            ),
            answered(old(self).openai_model, final(self).openai_model, model_input@),
            updated == (answer_of(key_input@) is Some || answer_of(path_input@) is Some
                || answer_of(model_input@) is Some),
    {
        let mut updated = false;
        let new_key = read_answer(key_input);
        if new_key.is_some() {
            self.openai_api_key = new_key;
            updated = true;
        }
        let new_path = read_answer(path_input);
        if new_path.is_some() {
            self.openai_prompt_file_path = new_path;
            updated = true;
        }
        let new_model = read_answer(model_input);
        if new_model.is_some() {
            self.openai_model = new_model;
            updated = true;
        }
        updated
    }
}

} // verus!
