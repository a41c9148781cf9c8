//! From a configured service to the command line that launches it.

use crate::command_builder::{find_value, lookup};
use crate::models::Service;
use crate::registry::opt_text;
use crate::text::{concat, same_text, trim, trim_text};
use vstd::prelude::*;

verus! {

/// The path `relative` below `root`.
///
/// Calls `std::path::Path::join` and `Path::to_string_lossy`. How paths are
/// joined depends on the platform's path syntax, so nothing is claimed of
/// the result.
#[verifier::external_body]
fn join_path(root: &str, relative: &str) -> (joined: String) {
    std::path::Path::new(root).join(relative).to_string_lossy().to_string()
}

/// Whether a service's working directory stands for the project's root: it
/// is empty or a single dot.
pub open spec fn is_root_dir(working_dir: Seq<char>) -> bool {
    working_dir.len() == 0 || working_dir == "."@
}

/// The directory that a service runs in: the project's root where the
/// service names none, else the service's directory below the root.
pub fn service_working_dir(root_path: &str, working_dir: &str) -> (dir: String)
    ensures
        is_root_dir(working_dir@) ==> dir@ == root_path@,
{
    if working_dir.is_empty() || same_text(working_dir, ".") {
        root_path.to_owned()
    } else {
        join_path(root_path, working_dir)
    }
}

/// The line that a user pastes into a terminal to run `command` in
/// `working_dir`.
pub open spec fn launch_line(working_dir: Seq<char>, command: Seq<char>) -> Seq<char> {
    "cd \""@ + working_dir + "\" && "@ + command
}

/// The line that a user pastes into a terminal to run `command` in
/// `working_dir`.
pub fn get_launch_command(working_dir: &str, command: &str) -> (line: String)
    ensures
        line@ == launch_line(working_dir@, command@),
{
    let mut line = concat("cd \"", working_dir);
    line.append("\" && ");
    line.append(command);
    line
}

/// The first of two optional texts that is there.
pub open spec fn first_of(chosen: Option<Seq<char>>, fallback: Option<Seq<char>>) -> Option<
    Seq<char>,
> {
    match chosen {
        Some(text) => Some(text),
        None => fallback,
    }
}

/// The pairs of an optional list; none where there is no list.
pub open spec fn pairs_of(list: Option<Vec<(String, String)>>) -> Seq<(String, String)> {
    match list {
        Some(pairs) => pairs@,
        None => seq![],
    }
}

/// `command` with `extra` after it, trimmed and after one space; `command`
/// alone where `extra` is missing or empty after trimming.
pub open spec fn with_extra(command: Seq<char>, extra: Option<Seq<char>>) -> Seq<char> {
    match extra {
        Some(text) => if trim_text(text).len() == 0 {
            command
        } else {
            command + " "@ + trim_text(text)
        },
        None => command,
    }
}

/// The mode that a launch of `service` runs in: the one asked for, else the
/// service's default, else none.
pub open spec fn effective_mode(service: Service, mode: Option<Seq<char>>) -> Option<Seq<char>> {
    first_of(mode, opt_text(service.default_mode))
}

/// The argument preset that a launch of `service` uses: the one asked for,
/// else the service's default, else none.
pub open spec fn effective_preset(service: Service, arg_preset: Option<Seq<char>>) -> Option<
    Seq<char>,
> {
    first_of(arg_preset, opt_text(service.default_arg_preset))
}

/// The command of `service` in `mode`: the service's own command where
/// there is no mode, else the command that the service defines for the
/// mode, if it defines one.
pub open spec fn base_command(service: Service, mode: Option<Seq<char>>) -> Option<Seq<char>> {
    match mode {
        None => Some(service.command@),
        Some(name) => lookup(pairs_of(service.modes), name),
    }
}

/// The arguments that the preset `preset` of `service` stands for, if the
/// service defines it.
pub open spec fn preset_args(service: Service, preset: Option<Seq<char>>) -> Option<Seq<char>> {
    match preset {
        None => None,
        Some(name) => lookup(pairs_of(service.arg_presets), name),
    }
}

/// The message for a mode that a service does not define.
pub open spec fn unknown_mode(name: Seq<char>) -> Seq<char> {
    "Mode '"@ + name + "' not found for service"@
}

/// How a service is launched: its full command line, and the mode and the
/// preset that the launch reports.
#[derive(Debug, Clone)]
pub struct ServiceLaunch {
    pub command: String,
    pub mode: Option<String>,
    pub arg_preset: Option<String>,
}

fn append_extra(command: &mut String, extra: &str)
    ensures
        final(command)@ == with_extra(old(command)@, Some(extra@)),
{
    let trimmed = trim(extra);
    if !trimmed.as_str().is_empty() {
        command.append(" ");
        command.append(trimmed.as_str());
        assert(command@ =~= old(command)@ + " "@ + trim_text(extra@));
    }
}

/// Resolves the launch of `service`.
///
/// The mode is the one asked for, else the service's default; the command
/// is that of the mode, or the service's own where there is no mode. The
/// preset is found the same way; a preset that the service does not define
/// adds nothing. The command line is the command, then the service's extra
/// arguments, then those of the preset. Fails exactly when the service does
/// not define the mode.
pub fn resolve_service_launch(
    service: &Service,
    mode: Option<String>,
    arg_preset: Option<String>,
) -> (resolved: Result<ServiceLaunch, String>)
    ensures
        ({
            let mode_name = effective_mode(*service, opt_text(mode));
            let preset_name = effective_preset(*service, opt_text(arg_preset));
            match base_command(*service, mode_name) {
                None => resolved is Err && resolved->Err_0@ == unknown_mode(mode_name->Some_0),
                Some(base) => {
                    &&& resolved is Ok
                    &&& opt_text(resolved->Ok_0.mode) == mode_name
                    &&& opt_text(resolved->Ok_0.arg_preset) == preset_name
                    &&& resolved->Ok_0.command@ == with_extra(
                        with_extra(base, opt_text(service.extra_args)),
                        preset_args(*service, preset_name),
                    )
                },
            }
        }),
{
    let mode = match mode {
        Some(name) => Some(name),
        None => crate::events::clone_opt_text(&service.default_mode),
    };
    let arg_preset = match arg_preset {
        Some(name) => Some(name),
        None => crate::events::clone_opt_text(&service.default_arg_preset),
    };
    let empty: Vec<(String, String)> = Vec::new();
    let mut command = match &mode {
        None => service.command.clone(),
        Some(name) => {
            let modes = match &service.modes {
                Some(pairs) => pairs,
                None => &empty,
            };
            match find_value(modes, name.as_str()) {
                Some(found) => found.clone(),
                None => {
                    let mut message = concat("Mode '", name.as_str());
                    message.append("' not found for service");
                    return Err(message);
                },
            }
        },
    };
    match &service.extra_args {
        Some(extra) => append_extra(&mut command, extra.as_str()),
        None => {},
    }
    match &arg_preset {
        None => {},
        Some(name) => {
            let presets = match &service.arg_presets {
                Some(pairs) => pairs,
                None => &empty,
            };
            match find_value(presets, name.as_str()) {
                Some(args) => append_extra(&mut command, args.as_str()),
                None => {},
            }
        },
    }
    Ok(ServiceLaunch { command, mode, arg_preset })
}

} // verus!
