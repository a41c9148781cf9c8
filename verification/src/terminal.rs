//! How a service is opened in a terminal of the user's choice.
//!
//! Nothing here starts a terminal. `external_terminal_plan` says which
//! commands to try, in order; the caller runs the first that can be started
//! and reports `terminal_failure` where none can.

use crate::models::{texts, Platform, TerminalConfig, TerminalPreset};
use crate::text::{chars_of, concat, replace, replace_text, text_of};
use vstd::prelude::*;

verus! {

/// The hexadecimal digit `d`, in upper case.
pub open spec fn hex_char(d: int) -> char {
    if d == 0 {
        '0'
    } else if d == 1 {
        '1'
    } else if d == 2 {
        '2'
    } else if d == 3 {
        '3'
    } else if d == 4 {
        '4'
    } else if d == 5 {
        '5'
    } else if d == 6 {
        '6'
    } else if d == 7 {
        '7'
    } else if d == 8 {
        '8'
    } else if d == 9 {
        '9'
    } else if d == 10 {
        'A'
    } else if d == 11 {
        'B'
    } else if d == 12 {
        'C'
    } else if d == 13 {
        'D'
    } else if d == 14 {
        'E'
    } else {
        'F'
    }
}

fn hex_digit(d: u32) -> (c: char)
    requires
        d < 16,
    ensures
        c == hex_char(d as int),
{
    if d == 0 {
        '0'
    } else if d == 1 {
        '1'
    } else if d == 2 {
        '2'
    } else if d == 3 {
        '3'
    } else if d == 4 {
        '4'
    } else if d == 5 {
        '5'
    } else if d == 6 {
        '6'
    } else if d == 7 {
        '7'
    } else if d == 8 {
        '8'
    } else if d == 9 {
        '9'
    } else if d == 10 {
        'A'
    } else if d == 11 {
        'B'
    } else if d == 12 {
        'C'
    } else if d == 13 {
        'D'
    } else if d == 14 {
        'E'
    } else {
        'F'
    }
}

/// Whether a character is written as it is in an encoded path: an ASCII
/// letter or digit, or one of `-`, `_`, `.`, `~`.
pub open spec fn is_unreserved(c: char) -> bool {
    ('A' <= c <= 'Z') || ('a' <= c <= 'z') || ('0' <= c <= '9') || c == '-' || c == '_' || c == '.'
        || c == '~'
}

/// One character of a path, encoded: itself where it is unreserved, else a
/// percent sign and the two hexadecimal digits of its lowest byte.
pub open spec fn encoded_char(c: char) -> Seq<char> {
    if is_unreserved(c) {
        seq![c]
    } else {
        let byte = (c as u32) % 256;
        seq!['%', hex_char((byte / 16) as int), hex_char((byte % 16) as int)]
    }
}

/// A path, encoded character by character.
pub open spec fn encoded_text(s: Seq<char>) -> Seq<char>
    decreases s.len(),
{
    if s.len() == 0 {
        seq![]
    } else {
        encoded_text(s.drop_last()) + encoded_char(s.last())
    }
}

/// Encodes a path for use in a URI.
pub fn urlencoding(s: &str) -> (encoded: String)
    ensures
        encoded@ == encoded_text(s@),
{
    let chars = chars_of(s);
    let mut out: Vec<char> = Vec::new();
    let mut i: usize = 0;
    assert(chars@.take(0) =~= Seq::<char>::empty());
    while i < chars.len()
        invariant
            i <= chars@.len(),
            out@ == encoded_text(chars@.take(i as int)),
        decreases chars@.len() - i,
    {
        let c = chars[i];
        let ghost before = out@;
        assert(chars@.take(i + 1).drop_last() =~= chars@.take(i as int));
        assert(chars@.take(i + 1).last() == c);
        if ('A' <= c && c <= 'Z') || ('a' <= c && c <= 'z') || ('0' <= c && c <= '9') || c == '-'
            || c == '_' || c == '.' || c == '~' {
            out.push(c);
            assert(out@ =~= before + encoded_char(c));
        } else {
            let byte = (c as u32) % 256;
            out.push('%');
            out.push(hex_digit(byte / 16));
            out.push(hex_digit(byte % 16));
            assert(out@ =~= before + encoded_char(c));
        }
        i += 1;
    }
    assert(chars@.take(i as int) =~= chars@);
    text_of(&out)
}

/// One command that may open a terminal.
#[derive(Debug, Clone)]
pub struct TerminalCommand {
    pub program: String,
    pub args: Vec<String>,
    /// The directory to start the program in, where it matters.
    pub working_dir: Option<String>,
    /// Whether the program needs a console window of its own (Windows).
    pub new_console: bool,
    /// Whether the program's own window is to stay hidden (Windows).
    pub hide_window: bool,
}

/// A `TerminalCommand` as a mathematical value.
pub struct TerminalCommandView {
    pub program: Seq<char>,
    pub args: Seq<Seq<char>>,
    pub working_dir: Option<Seq<char>>,
    pub new_console: bool,
    pub hide_window: bool,
}

impl View for TerminalCommand {
    type V = TerminalCommandView;

    open spec fn view(&self) -> TerminalCommandView {
        TerminalCommandView {
            program: self.program@,
            args: texts(self.args@),
            working_dir: crate::registry::opt_text(self.working_dir),
            new_console: self.new_console,
            hide_window: self.hide_window,
        }
    }
}

/// The commands of a list, as mathematical values.
pub open spec fn command_views(list: Seq<TerminalCommand>) -> Seq<TerminalCommandView> {
    list.map_values(|c: TerminalCommand| c@)
}

/// The commands to try in order to open a terminal, and what to say when
/// none of them can be started.
#[derive(Debug, Clone)]
pub struct TerminalPlan {
    pub candidates: Vec<TerminalCommand>,
    /// What went wrong, should no candidate start.
    pub failure: String,
    /// Whether the candidates are guesses at what is installed. The reason
    /// why a guess could not be started is of no interest.
    pub detect: bool,
}

/// A `TerminalPlan` as a mathematical value.
pub struct TerminalPlanView {
    pub candidates: Seq<TerminalCommandView>,
    pub failure: Seq<char>,
    pub detect: bool,
}

impl View for TerminalPlan {
    type V = TerminalPlanView;

    open spec fn view(&self) -> TerminalPlanView {
        TerminalPlanView {
            candidates: command_views(self.candidates@),
            failure: self.failure@,
            detect: self.detect,
        }
    }
}

/// A command without a directory and without window flags.
pub open spec fn plain(program: Seq<char>, args: Seq<Seq<char>>) -> TerminalCommandView {
    TerminalCommandView { program, args, working_dir: None, new_console: false, hide_window: false }
}

/// The plan of one command.
pub open spec fn single(command: TerminalCommandView, failure: Seq<char>) -> TerminalPlanView {
    TerminalPlanView { candidates: seq![command], failure, detect: false }
}

/// The line that a Windows shell runs: change to the directory, on
/// whatever drive, then run the command.
pub open spec fn windows_line(dir: Seq<char>, command: Seq<char>) -> Seq<char> {
    "cd /d \""@ + dir + "\" && "@ + command
}

/// The line that a Linux shell runs: change to the directory, run the
/// command, then stay in a shell.
pub open spec fn linux_line(dir: Seq<char>, command: Seq<char>) -> Seq<char> {
    "cd \""@ + dir + "\" && "@ + command + "; exec $SHELL"@
}

/// The line that PowerShell runs.
pub open spec fn powershell_line(dir: Seq<char>, command: Seq<char>) -> Seq<char> {
    "Set-Location '"@ + replace_text(dir, "'"@, "''"@) + "'; "@ + command
}

/// The line inside an AppleScript: the directory and the command, each
/// escaped for the quotes around it.
pub open spec fn apple_line(dir: Seq<char>, command: Seq<char>) -> Seq<char> {
    "cd '"@ + replace_text(dir, "'"@, "'\\''"@) + "' && "@ + replace_text(
        command,
        "\""@,
        "\\\""@,
    )
}

/// The AppleScript that runs a line in Terminal.
pub open spec fn terminal_script(line: Seq<char>) -> Seq<char> {
    "tell application \"Terminal\"\n                        activate\n                        do script \""@
        + line + "\"\n                    end tell"@
}

/// The AppleScript that runs a line in iTerm.
pub open spec fn iterm_script(line: Seq<char>) -> Seq<char> {
    "tell application \"iTerm\"\n                        activate\n                        create window with default profile\n                        tell current session of current window\n                            write text \""@
        + line
        + "\"\n                        end tell\n                    end tell"@
}

/// The AppleScript that types a line into Warp.
pub open spec fn warp_script(line: Seq<char>) -> Seq<char> {
    "tell application \"Warp\"\n                        activate\n                    end tell\n                    delay 0.5\n                    tell application \"System Events\"\n                        keystroke \""@
        + line
        + "\"\n                        key code 36\n                    end tell"@
}

/// One custom argument with its placeholders filled in: `{command}`, then
/// `{dir}`, then `{full_command}`.
pub open spec fn filled(
    arg: Seq<char>,
    dir: Seq<char>,
    command: Seq<char>,
    full: Seq<char>,
) -> Seq<char> {
    replace_text(
        replace_text(replace_text(arg, "{command}"@, command), "{dir}"@, dir),
        "{full_command}"@,
        full,
    )
}

/// The custom arguments with their placeholders filled in.
pub open spec fn filled_args(
    args: Seq<String>,
    dir: Seq<char>,
    command: Seq<char>,
    full: Seq<char>,
) -> Seq<Seq<char>> {
    args.map_values(|a: String| filled(a@, dir, command, full))
}

/// The terminal emulators that are tried on Linux, in order, each with the
/// arguments that make it run `line` in bash.
pub open spec fn linux_guesses(line: Seq<char>) -> Seq<TerminalCommandView> {
    seq![
        plain("gnome-terminal"@, seq!["--"@, "bash"@, "-c"@, line]),
        plain("konsole"@, seq!["-e"@, "bash"@, "-c"@, line]),
        plain("xfce4-terminal"@, seq!["-e"@, "bash -c '"@ + line + "'"@]),
        plain("alacritty"@, seq!["-e"@, "bash"@, "-c"@, line]),
        plain("kitty"@, seq!["bash"@, "-c"@, line]),
        plain("xterm"@, seq!["-e"@, "bash"@, "-c"@, line]),
    ]
}

/// The message for a custom terminal without a path.
pub open spec fn no_custom_path() -> Seq<char> {
    "Custom terminal path is not configured"@
}

/// The plan on Windows.
pub open spec fn windows_plan(
    preset: TerminalPreset,
    custom_path: Seq<char>,
    custom_args: Seq<String>,
    dir: Seq<char>,
    command: Seq<char>,
) -> Result<TerminalPlanView, Seq<char>> {
    let windows_terminal = single(
        plain("wt.exe"@, seq!["-d"@, dir, "cmd"@, "/k"@, command]),
        "Failed to launch Windows Terminal"@,
    );
    match preset {
        TerminalPreset::WindowsTerminal | TerminalPreset::MacTerminal | TerminalPreset::ITerm2 => Ok(
            windows_terminal,
        ),
        TerminalPreset::PowerShell => Ok(
            single(
                TerminalCommandView {
                    new_console: true,
                    ..plain(
                        "powershell.exe"@,
                        seq!["-NoExit"@, "-Command"@, powershell_line(dir, command)],
                    )
                },
                "Failed to launch PowerShell"@,
            ),
        ),
        TerminalPreset::Cmd => Ok(
            single(
                TerminalCommandView {
                    new_console: true,
                    ..plain("cmd.exe"@, seq!["/k"@, windows_line(dir, command)])
                },
                "Failed to launch Command Prompt"@,
            ),
        ),
        TerminalPreset::Warp => Ok(
            single(
                TerminalCommandView {
                    hide_window: true,
                    ..plain(
                        "cmd"@,
                        seq![
                            "/c"@,
                            "start"@,
                            ""@,
                            "warp://action/new_window?path="@ + encoded_text(dir),
                        ],
                    )
                },
                "Failed to launch Warp"@,
            ),
        ),
        TerminalPreset::Custom => if custom_path.len() == 0 {
            Err(no_custom_path())
        } else if custom_args.len() == 0 {
            Ok(
                single(
                    TerminalCommandView {
                        working_dir: Some(dir),
                        new_console: true,
                        ..plain(custom_path, seq![])
                    },
                    "Failed to launch custom terminal"@,
                ),
            )
        } else {
            Ok(
                single(
                    TerminalCommandView {
                        new_console: true,
                        ..plain(
                            custom_path,
                            filled_args(custom_args, dir, command, windows_line(dir, command)),
                        )
                    },
                    "Failed to launch custom terminal"@,
                ),
            )
        },
    }
}

/// The plan on macOS.
pub open spec fn macos_plan(
    preset: TerminalPreset,
    custom_path: Seq<char>,
    dir: Seq<char>,
    command: Seq<char>,
) -> Result<TerminalPlanView, Seq<char>> {
    let line = apple_line(dir, command);
    match preset {
        TerminalPreset::ITerm2 => Ok(
            single(plain("osascript"@, seq!["-e"@, iterm_script(line)]), "Failed to launch iTerm2"@),
        ),
        TerminalPreset::Warp => Ok(
            single(plain("osascript"@, seq!["-e"@, warp_script(line)]), "Failed to launch Warp"@),
        ),
        TerminalPreset::Custom => if custom_path.len() == 0 {
            Err(no_custom_path())
        } else {
            Ok(
                single(
                    TerminalCommandView {
                        working_dir: Some(dir),
                        ..plain("open"@, seq!["-a"@, custom_path])
                    },
                    "Failed to launch custom terminal"@,
                ),
            )
        },
        _ => Ok(
            single(
                plain("osascript"@, seq!["-e"@, terminal_script(line)]),
                "Failed to launch Terminal"@,
            ),
        ),
    }
}

/// The plan on Linux.
pub open spec fn linux_plan(
    preset: TerminalPreset,
    custom_path: Seq<char>,
    custom_args: Seq<String>,
    dir: Seq<char>,
    command: Seq<char>,
) -> Result<TerminalPlanView, Seq<char>> {
    let line = linux_line(dir, command);
    if preset == TerminalPreset::Custom && custom_path.len() > 0 {
        Ok(
            single(
                plain(
                    custom_path,
                    if custom_args.len() == 0 {
                        seq!["-e"@, "bash"@, "-c"@, line]
                    } else {
                        filled_args(custom_args, dir, command, line)
                    },
                ),
                "Failed to launch custom terminal"@,
            ),
        )
    } else {
        Ok(
            TerminalPlanView {
                candidates: linux_guesses(line),
                failure: "No supported terminal emulator found"@,
                detect: true,
            },
        )
    }
}

/// The plan for `platform`.
pub open spec fn terminal_plan(
    platform: Platform,
    terminal: TerminalConfig,
    dir: Seq<char>,
    command: Seq<char>,
) -> Result<TerminalPlanView, Seq<char>> {
    match platform {
        Platform::Windows => windows_plan(
            terminal.preset,
            terminal.custom_path@,
            terminal.custom_args@,
            dir,
            command,
        ),
        Platform::MacOs => macos_plan(terminal.preset, terminal.custom_path@, dir, command),
        Platform::Linux => linux_plan(
            terminal.preset,
            terminal.custom_path@,
            terminal.custom_args@,
            dir,
            command,
        ),
    }
}

fn make(program: &str, args: Vec<String>) -> (command: TerminalCommand)
    ensures
        command@ == plain(program@, texts(args@)),
{
    TerminalCommand {
        program: program.to_owned(),
        args,
        working_dir: None,
        new_console: false,
        hide_window: false,
    }
}

fn one(command: TerminalCommand, failure: &str) -> (plan: TerminalPlan)
    ensures
        plan@ == single(command@, failure@),
{
    let mut candidates: Vec<TerminalCommand> = Vec::new();
    candidates.push(command);
    let plan = TerminalPlan { candidates, failure: failure.to_owned(), detect: false };
    assert(plan@.candidates =~= seq![command@]);
    plan
}

fn join3(a: &str, b: &str, c: &str) -> (text: String)
    ensures
        text@ == a@ + b@ + c@,
{
    let mut text = concat(a, b);
    text.append(c);
    text
}

fn fill_args(custom_args: &Vec<String>, dir: &str, command: &str, full: &str) -> (args: Vec<String>)
    ensures
        texts(args@) == filled_args(custom_args@, dir@, command@, full@),
{
    let mut args: Vec<String> = Vec::new();
    let mut i: usize = 0;
    while i < custom_args.len()
        invariant
            i <= custom_args@.len(),
            args@.len() == i,
            forall|k: int|
                0 <= k < i ==> #[trigger] args@[k]@ == filled(
                    custom_args@[k]@,
                    dir@,
                    command@,
                    full@,
                ),
        decreases custom_args@.len() - i,
    {
        let first = replace(custom_args[i].as_str(), "{command}", command);
        let second = replace(first.as_str(), "{dir}", dir);
        args.push(replace(second.as_str(), "{full_command}", full));
        i += 1;
    }
    assert(texts(args@) =~= filled_args(custom_args@, dir@, command@, full@));
    args
}

fn args2(a: String, b: String) -> (args: Vec<String>)
    ensures
        texts(args@) == seq![a@, b@],
{
    let mut args: Vec<String> = Vec::new();
    args.push(a);
    args.push(b);
    assert(texts(args@) =~= seq![a@, b@]);
    args
}

fn args3(a: String, b: String, c: String) -> (args: Vec<String>)
    ensures
        texts(args@) == seq![a@, b@, c@],
{
    let mut args: Vec<String> = Vec::new();
    args.push(a);
    args.push(b);
    args.push(c);
    assert(texts(args@) =~= seq![a@, b@, c@]);
    args
}

fn args4(a: String, b: String, c: String, d: String) -> (args: Vec<String>)
    ensures
        texts(args@) == seq![a@, b@, c@, d@],
{
    let mut args: Vec<String> = Vec::new();
    args.push(a);
    args.push(b);
    args.push(c);
    args.push(d);
    assert(texts(args@) =~= seq![a@, b@, c@, d@]);
    args
}

fn windows(terminal: &TerminalConfig, dir: &str, command: &str) -> (plan: Result<
    TerminalPlan,
    String,
>)
    ensures
        match windows_plan(
            terminal.preset,
            terminal.custom_path@,
            terminal.custom_args@,
            dir@,
            command@,
        ) {
            Ok(wanted) => plan is Ok && plan->Ok_0@ == wanted,
            Err(message) => plan is Err && plan->Err_0@ == message,
        },
{
    match terminal.preset {
        TerminalPreset::WindowsTerminal | TerminalPreset::MacTerminal | TerminalPreset::ITerm2 => {
            let mut args = args4(
                "-d".to_owned(),
                dir.to_owned(),
                "cmd".to_owned(),
                "/k".to_owned(),
            );
            let ghost before = texts(args@);
            args.push(command.to_owned());
            assert(texts(args@) =~= before.push(command@));
            assert(texts(args@) =~= seq!["-d"@, dir@, "cmd"@, "/k"@, command@]);
            Ok(one(make("wt.exe", args), "Failed to launch Windows Terminal"))
        },
        TerminalPreset::PowerShell => {
            let escaped = replace(dir, "'", "''");
            let mut line = join3("Set-Location '", escaped.as_str(), "'; ");
            line.append(command);
            let mut shell = make(
                "powershell.exe",
                args3("-NoExit".to_owned(), "-Command".to_owned(), line),
            );
            shell.new_console = true;
            Ok(one(shell, "Failed to launch PowerShell"))
        },
        TerminalPreset::Cmd => {
            let mut line = join3("cd /d \"", dir, "\" && ");
            line.append(command);
            let mut shell = make("cmd.exe", args2("/k".to_owned(), line));
            shell.new_console = true;
            Ok(one(shell, "Failed to launch Command Prompt"))
        },
        TerminalPreset::Warp => {
            let uri = concat("warp://action/new_window?path=", urlencoding(dir).as_str());
            let mut shell = make(
                "cmd",
                args4("/c".to_owned(), "start".to_owned(), "".to_owned(), uri),
            );
            shell.hide_window = true;
            Ok(one(shell, "Failed to launch Warp"))
        },
        TerminalPreset::Custom => {
            if terminal.custom_path.as_str().is_empty() {
                return Err("Custom terminal path is not configured".to_owned());
            }
            let mut shell = if terminal.custom_args.len() == 0 {
                let none: Vec<String> = Vec::new();
                assert(texts(none@) =~= Seq::<Seq<char>>::empty());
                let mut shell = make(terminal.custom_path.as_str(), none);
                shell.working_dir = Some(dir.to_owned());
                shell
            } else {
                let mut full = join3("cd /d \"", dir, "\" && ");
                full.append(command);
                make(
                    terminal.custom_path.as_str(),
                    fill_args(&terminal.custom_args, dir, command, full.as_str()),
                )
            };
            shell.new_console = true;
            Ok(one(shell, "Failed to launch custom terminal"))
        },
    }
}

fn apple(dir: &str, command: &str) -> (line: String)
    ensures
        line@ == apple_line(dir@, command@),
{
    let escaped_dir = replace(dir, "'", "'\\''");
    let escaped_command = replace(command, "\"", "\\\"");
    let mut line = join3("cd '", escaped_dir.as_str(), "' && ");
    line.append(escaped_command.as_str());
    line
}

fn macos(terminal: &TerminalConfig, dir: &str, command: &str) -> (plan: Result<
    TerminalPlan,
    String,
>)
    ensures
        match macos_plan(terminal.preset, terminal.custom_path@, dir@, command@) {
            Ok(wanted) => plan is Ok && plan->Ok_0@ == wanted,
            Err(message) => plan is Err && plan->Err_0@ == message,
        },
{
    match terminal.preset {
        TerminalPreset::ITerm2 => {
            let script = join3(
                "tell application \"iTerm\"\n                        activate\n                        create window with default profile\n                        tell current session of current window\n                            write text \"",
                apple(dir, command).as_str(),
                "\"\n                        end tell\n                    end tell",
            );
            Ok(one(make("osascript", args2("-e".to_owned(), script)), "Failed to launch iTerm2"))
        },
        TerminalPreset::Warp => {
            let script = join3(
                "tell application \"Warp\"\n                        activate\n                    end tell\n                    delay 0.5\n                    tell application \"System Events\"\n                        keystroke \"",
                apple(dir, command).as_str(),
                "\"\n                        key code 36\n                    end tell",
            );
            Ok(one(make("osascript", args2("-e".to_owned(), script)), "Failed to launch Warp"))
        },
        TerminalPreset::Custom => {
            if terminal.custom_path.as_str().is_empty() {
                return Err("Custom terminal path is not configured".to_owned());
            }
            let mut opener = make("open", args2("-a".to_owned(), terminal.custom_path.clone()));
            opener.working_dir = Some(dir.to_owned());
            Ok(one(opener, "Failed to launch custom terminal"))
        },
        _ => {
            let script = join3(
                "tell application \"Terminal\"\n                        activate\n                        do script \"",
                apple(dir, command).as_str(),
                "\"\n                    end tell",
            );
            Ok(one(make("osascript", args2("-e".to_owned(), script)), "Failed to launch Terminal"))
        },
    }
}

fn bash_args(lead: Vec<String>, line: &str) -> (args: Vec<String>)
    ensures
        texts(args@) == texts(lead@) + seq!["bash"@, "-c"@, line@],
{
    let mut args = lead;
    let ghost before = texts(args@);
    args.push("bash".to_owned());
    args.push("-c".to_owned());
    args.push(line.to_owned());
    assert(texts(args@) =~= before + seq!["bash"@, "-c"@, line@]);
    args
}

fn lead(flag: &str) -> (args: Vec<String>)
    ensures
        texts(args@) == seq![flag@],
{
    let mut args: Vec<String> = Vec::new();
    args.push(flag.to_owned());
    assert(texts(args@) =~= seq![flag@]);
    args
}

fn guesses(line: &str) -> (list: Vec<TerminalCommand>)
    ensures
        command_views(list@) == linux_guesses(line@),
{
    let none: Vec<String> = Vec::new();
    assert(texts(none@) =~= Seq::<Seq<char>>::empty());
    let mut list: Vec<TerminalCommand> = Vec::new();
    list.push(make("gnome-terminal", bash_args(lead("--"), line)));
    list.push(make("konsole", bash_args(lead("-e"), line)));
    list.push(make("xfce4-terminal", args2("-e".to_owned(), join3("bash -c '", line, "'"))));
    list.push(make("alacritty", bash_args(lead("-e"), line)));
    list.push(make("kitty", bash_args(none, line)));
    list.push(make("xterm", bash_args(lead("-e"), line)));
    proof {
        let want = linux_guesses(line@);
        let got = command_views(list@);
        assert(got[0].args =~= want[0].args);
        assert(got[1].args =~= want[1].args);
        assert(got[2].args =~= want[2].args);
        assert(got[3].args =~= want[3].args);
        assert(got[4].args =~= want[4].args);
        assert(got[5].args =~= want[5].args);
        assert(got =~= want);
    }
    list
}

fn linux(terminal: &TerminalConfig, dir: &str, command: &str) -> (plan: Result<
    TerminalPlan,
    String,
>)
    ensures
        match linux_plan(
            terminal.preset,
            terminal.custom_path@,
            terminal.custom_args@,
            dir@,
            command@,
        ) {
            Ok(wanted) => plan is Ok && plan->Ok_0@ == wanted,
            Err(message) => plan is Err && plan->Err_0@ == message,
        },
{
    let mut line = join3("cd \"", dir, "\" && ");
    line.append(command);
    line.append("; exec $SHELL");
    assert(line@ =~= linux_line(dir@, command@));
    let custom = match terminal.preset {
        TerminalPreset::Custom => !terminal.custom_path.as_str().is_empty(),
        _ => false,
    };
    if custom {
        let args = if terminal.custom_args.len() == 0 {
            let args = bash_args(lead("-e"), line.as_str());
            assert(texts(args@) =~= seq!["-e"@, "bash"@, "-c"@, line@]);
            args
        } else {
            fill_args(&terminal.custom_args, dir, command, line.as_str())
        };
        Ok(one(make(terminal.custom_path.as_str(), args), "Failed to launch custom terminal"))
    } else {
        Ok(
            TerminalPlan {
                candidates: guesses(line.as_str()),
                failure: "No supported terminal emulator found".to_owned(),
                detect: true,
            },
        )
    }
}

/// Plans how to open `command` in a terminal, in the directory
/// `working_dir`, on `platform` and with the user's terminal settings.
///
/// Fails exactly where the settings ask for a custom terminal without
/// naming one, on Windows and macOS; on Linux the installed terminals are
/// guessed at then. A preset of another platform falls back to the
/// platform's own terminal.
pub fn external_terminal_plan(
    platform: Platform,
    terminal: &TerminalConfig,
    working_dir: &str,
    command: &str,
) -> (plan: Result<TerminalPlan, String>)
    ensures
        match terminal_plan(platform, *terminal, working_dir@, command@) {
            Ok(wanted) => plan is Ok && plan->Ok_0@ == wanted,
            Err(message) => plan is Err && plan->Err_0@ == message,
        },
{
    match platform {
        Platform::Windows => windows(terminal, working_dir, command),
        Platform::MacOs => macos(terminal, working_dir, command),
        Platform::Linux => linux(terminal, working_dir, command),
    }
}

/// What to say when no candidate of a plan could be started: the plan's
/// failure, followed by the reason `error` unless the candidates were
/// guesses.
pub open spec fn failure_text(plan: TerminalPlanView, error: Seq<char>) -> Seq<char> {
    if plan.detect {
        plan.failure
    } else {
        plan.failure + ": "@ + error
    }
}

/// What to say when no candidate of `plan` could be started; `error` is why
/// the last one could not.
pub fn terminal_failure(plan: &TerminalPlan, error: &str) -> (message: String)
    ensures
        message@ == failure_text(plan@, error@),
{
    if plan.detect {
        plan.failure.clone()
    } else {
        join3(plan.failure.as_str(), ": ", error)
    }
}

/// The command that shows `path` in the platform's file manager.
pub open spec fn explorer_command(platform: Platform, path: Seq<char>) -> TerminalCommandView {
    match platform {
        Platform::Windows => plain("explorer"@, seq![path]),
        Platform::MacOs => plain("open"@, seq![path]),
        Platform::Linux => plain("xdg-open"@, seq![path]),
    }
}

/// The command that shows `path` in the platform's file manager.
pub fn open_in_explorer(platform: Platform, path: &str) -> (command: TerminalCommand)
    ensures
        command@ == explorer_command(platform, path@),
{
    let mut args: Vec<String> = Vec::new();
    args.push(path.to_owned());
    assert(texts(args@) =~= seq![path@]);
    match platform {
        Platform::Windows => make("explorer", args),
        Platform::MacOs => make("open", args),
        Platform::Linux => make("xdg-open", args),
    }
}

/// The command that opens `path` in the code editor: the editor's own
/// command, run through the shell on Windows.
pub open spec fn editor_command(platform: Platform, path: Seq<char>) -> TerminalCommandView {
    match platform {
        Platform::Windows => plain("cmd"@, seq!["/C"@, "code"@, path]),
        _ => plain("code"@, seq![path]),
    }
}

/// The command that opens `path` in the code editor.
pub fn open_in_vscode(platform: Platform, path: &str) -> (command: TerminalCommand)
    ensures
        command@ == editor_command(platform, path@),
{
    match platform {
        Platform::Windows => make(
            "cmd",
            args3("/C".to_owned(), "code".to_owned(), path.to_owned()),
        ),
        _ => {
            let mut args: Vec<String> = Vec::new();
            args.push(path.to_owned());
            assert(texts(args@) =~= seq![path@]);
            make("code", args)
        },
    }
}

/// What to say when the code editor could not be started for the reason
/// `error`.
pub fn editor_failure(error: &str) -> (message: String)
    ensures
        message@ == "Failed to open VSCode: "@ + error@
            + ". Make sure VSCode is installed and 'code' command is in PATH."@,
{
    join3(
        "Failed to open VSCode: ",
        error,
        ". Make sure VSCode is installed and 'code' command is in PATH.",
    )
}

} // verus!
