//! The commands that the embedding application can invoke.
//!
//! Each command decides here and leaves the asking to the host: what comes
//! back says what the host toolkit is to do, and what the host toolkit
//! answered is handed in where the command depends on it.

use crate::router::{Action, ActionModel};
use crate::state::AppState;
use crate::window::WindowVisibility;
use vstd::prelude::*;
use vstd::string::StringExecFns;

verus! {

/// The greeting for `name`.
pub open spec fn greeting(name: Seq<char>) -> Seq<char> {
    "Hello, "@ + name + "! You've been greeted from Rust!"@
}

/// Greets `name`.
pub fn greet(name: &str) -> (text: String)
    ensures
        text@ == greeting(name@),
{
    let mut text = String::from_str("Hello, ");
    text.append(name);
    text.append("! You've been greeted from Rust!");
    text
}

/// The locale that the shell starts in: `zh`. Nothing is read from storage.
pub fn get_current_locale() -> (locale: String)
    ensures
        locale@ == "zh"@,
{
    String::from_str("zh")
}

/// Switches the menu bar to `locale`, given what the host toolkit answered
/// when it was asked to construct and install the menu bar of `locale`.
///
/// Where the toolkit succeeded, the state moves to `locale`. Where it
/// failed, its error is returned and the state is left exactly as it was:
/// the menu bar installed before is still the installed one.
pub fn update_menu_locale(state: &mut AppState, locale: &str, toolkit: Result<(), String>) -> (result:
    Result<(), String>)
    ensures
        toolkit is Ok ==> result is Ok && final(state)@ == old(state)@.with_locale(locale@),
        toolkit is Err ==> result == toolkit && *final(state) == *old(state),
{
    match toolkit {
        Ok(()) => {
            state.set_locale(locale);
            Ok(())
        },
        Err(error) => Err(error),
    }
}

/// Ends the application: always `Terminate`.
pub fn exit_app() -> (action: Action)
    ensures
        action@ == ActionModel::Terminate,
{
    Action::Terminate
}

/// The title that the window is asked to take: `title` where there is a
/// window, nothing where there is none. A missing window is no error.
pub fn set_window_title(window: Option<WindowVisibility>, title: &str) -> (request: Option<String>)
    ensures
        window is None ==> request is None,
        window is Some ==> request is Some && request->Some_0@ == title@,
{
    match window {
        Some(_) => Some(String::from_str(title)),
        None => None,
    }
}

} // verus!
