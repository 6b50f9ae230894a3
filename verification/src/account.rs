//! The decision rules of `seaplane account login`.
//!
//! Logging in saves a freshly entered API key into the configuration.  When
//! a key is already saved, it is only overwritten under `--force`; without
//! it the login is refused with a hint.  Prompting, reading the key, and
//! persisting the file are the caller's concern.

use vstd::prelude::*;
use vstd::string::StringExecFns;

use crate::error::CliError;
use crate::error::CliErrorKind;
use crate::error::TermColor;

verus! {

/// What a login run does about the saved API key.
#[derive(Debug)]
pub enum LoginAction {
    /// No key is saved yet: save the entered one.
    Save,
    /// A key is saved and `--force` was given: overwrite it.
    Overwrite,
    /// A key is saved and `--force` was not given: refuse with this error.
    Refuse(CliError),
}

/// Decide what a login run does, from the saved key and the `--force` flag.
pub fn login_decision(existing_key: &Option<String>, force: bool) -> (r: LoginAction)
    ensures
        *existing_key is None ==> r is Save,
        *existing_key is Some && force ==> r is Overwrite,
        *existing_key is Some && !force ==> (r matches LoginAction::Refuse(e) && {
            &&& e.kind matches CliErrorKind::ExistingValue(what) && what@ == "an API key"@
            &&& e.context@.len() == 3
            &&& e.context@[0].color is None && e.context@[0].text@ == "(hint: add '"@
            &&& e.context@[1].color == Some(TermColor::Green) && e.context@[1].text@ == "--force"@
            &&& e.context@[2].color is None && e.context@[2].text@ == "' to overwrite it)\n"@
        }),
{
    match existing_key {
        None => LoginAction::Save,
        Some(_) => {
            if force {
                LoginAction::Overwrite
            } else {
                let err = CliErrorKind::ExistingValue(String::from_str("an API key")).into_err()
                    .context(String::from_str("(hint: add '")).color_context(
                    TermColor::Green,
                    String::from_str("--force"),
                ).context(String::from_str("' to overwrite it)\n"));
                LoginAction::Refuse(err)
            }
        },
    }
}

} // verus!
