//! Start-up settings.

use vstd::prelude::*;
use vstd::string::*;

verus! {

/// The credential the assistant needs before it can start.
pub struct Settings {
    pub openai_api_key: String,
}

/// Why the settings could not be assembled.
#[derive(Clone, Copy, Debug, PartialEq, Eq)]
pub enum SettingsError {
    /// The credential variable is not set.
    MissingCredential,
}

impl Settings {
    /// The text of the name of the environment variable that holds the credential.
    pub open spec fn variable_name() -> Seq<char> {
        "OPENAI_API_KEY"@
    }

    /// Name of the environment variable that holds the credential.
    pub fn variable() -> (name: &'static str)
        ensures
            name@ == Self::variable_name(),
    {
        "OPENAI_API_KEY"
    }

    /// Builds the settings from what a lookup of the credential variable gave.
    pub fn new(credential: Option<String>) -> (settings: Result<Settings, SettingsError>)
        ensures
            credential matches Some(key) ==> (settings matches Ok(s) && s.openai_api_key@ == key@),
            credential is None ==> settings matches Err(SettingsError::MissingCredential),
    {
        match credential {
            Some(key) => Ok(Settings { openai_api_key: key }),
            None => Err(SettingsError::MissingCredential),
        }
    }
}

impl Clone for Settings {
    fn clone(&self) -> (copy: Self)
        ensures
            copy.openai_api_key@ == self.openai_api_key@,
    {
        Settings { openai_api_key: self.openai_api_key.clone() }
    }
}

} // verus!
