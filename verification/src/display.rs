//! How commands and states are shown to the user.

use crate::models::ScriptStatus;
use crate::text::{concat, contains, replace, replace_text, spec_contains};
use vstd::prelude::*;

verus! {

/// The symbol that stands for a script's state.
pub open spec fn status_symbol(status: ScriptStatus) -> Seq<char> {
    match status {
        ScriptStatus::Running => "●"@,
        ScriptStatus::Completed => "✓"@,
        ScriptStatus::Failed => "✗"@,
        ScriptStatus::Idle => "○"@,
    }
}

/// The symbol that stands for a script's state.
pub fn style_status_symbol(status: &ScriptStatus) -> (symbol: &'static str)
    ensures
        symbol@ == status_symbol(*status),
{
    match status {
        ScriptStatus::Running => "●",
        ScriptStatus::Completed => "✓",
        ScriptStatus::Failed => "✗",
        ScriptStatus::Idle => "○",
    }
}

/// The placeholder in a command that stands for the script's file.
pub open spec fn script_file_placeholder() -> Seq<char> {
    "{{SCRIPT_FILE}}"@
}

/// The placeholder that names the file `name`.
pub open spec fn named_placeholder(name: Seq<char>) -> Seq<char> {
    "{{SCRIPT_FILE:"@ + name + "}}"@
}

/// `command` with each placeholder for the script's file replaced by the
/// one that names the file `name`.
pub open spec fn display_text(command: Seq<char>, name: Seq<char>) -> Seq<char> {
    replace_text(command, script_file_placeholder(), named_placeholder(name))
}

/// The last component of a path, if it has one that is valid Unicode.
///
/// Calls `std::path::Path::file_name` and `OsStr::to_str`. What counts as a
/// component depends on the platform's path syntax, so nothing is claimed of
/// the result.
#[verifier::external_body]
fn file_name_of(path: &str) -> (name: Option<String>) {
    std::path::Path::new(path).file_name().and_then(|n| n.to_str()).map(|n| n.to_owned())
}

/// A command for display, with the file name `name` written into each
/// placeholder for the script's file.
pub fn display_with_name(command: &str, name: &str) -> (text: String)
    ensures
        text@ == display_text(command@, name@),
{
    let named = concat(concat("{{SCRIPT_FILE:", name).as_str(), "}}");
    replace(command, "{{SCRIPT_FILE}}", named.as_str())
}

/// Formats a command for display. Where the script has a path and the
/// command holds the placeholder for the script's file, each placeholder is
/// made to name the file: the last component of the path, or the whole path
/// where it has none. Otherwise the command is shown as it is.
pub fn format_command_display(command: &str, script_path: Option<&str>) -> (text: String)
    ensures
        script_path is None || !spec_contains(command@, script_file_placeholder()) ==> text@
            == command@,
        script_path is Some && spec_contains(command@, script_file_placeholder()) ==> exists|
            name: Seq<char>,
        | text@ == display_text(command@, name),
{
    match script_path {
        Some(path) => {
            if contains(command, "{{SCRIPT_FILE}}") {
                let text = match file_name_of(path) {
                    Some(name) => display_with_name(command, name.as_str()),
                    None => display_with_name(command, path),
                };
                text
            } else {
                command.to_owned()
            }
        },
        None => command.to_owned(),
    }
}

} // verus!
