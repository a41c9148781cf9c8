//! The state of the terminal interface: what is selected, what is shown,
//! and what each script is doing.

use crate::input::Key;
use crate::models::{GlobalScript, LogStream, ScriptStatus};
use crate::pairs::{position_of, value_of};
use crate::text::{
    chars_of, contains, lowercase_text, replace, replace_text, slice_of,
    spec_contains, strip_leading, strip_leading_chars, text_of, to_lowercase,
};
use crate::tui_emitter::ProcessEvent;
use vstd::prelude::*;

verus! {

/// How many lines of output are kept per script.
pub const MAX_LOG_LINES: usize = 5000;

/// What the keys currently go to.
#[derive(Clone, Copy, Debug, PartialEq, Eq, Structural)]
pub enum InputMode {
    Normal,
    Search,
    Help,
    ParamForm,
}

/// The panel that has the focus.
#[derive(Clone, Copy, Debug, PartialEq, Eq, Structural)]
pub enum ActivePanel {
    ScriptList,
    Output,
}

/// One line of output, for display.
#[derive(Debug, Clone)]
pub struct LogLine {
    pub stream: LogStream,
    pub content: String,
}

/// What is known of a script at run time.
#[derive(Debug, Clone)]
pub struct ScriptRuntime {
    pub status: ScriptStatus,
    pub pid: Option<u32>,
    pub logs: Vec<LogLine>,
    pub exit_code: Option<i32>,
    pub success: Option<bool>,
    /// The command line that was run last, with its parameters filled in.
    pub last_command: Option<String>,
}

impl Default for ScriptRuntime {
    fn default() -> (runtime: Self)
        ensures
            runtime.status == ScriptStatus::Idle,
            runtime.pid is None,
            runtime.logs@.len() == 0,
            runtime.exit_code is None,
            runtime.success is None,
            runtime.last_command is None,
    {
        ScriptRuntime {
            status: ScriptStatus::Idle,
            pid: None,
            logs: Vec::new(),
            exit_code: None,
            success: None,
            last_command: None,
        }
    }
}

/// A line as a mathematical value: its stream and its text.
pub open spec fn line_view(line: LogLine) -> (LogStream, Seq<char>) {
    (line.stream, line.content@)
}

/// The lines of a list, as mathematical values.
pub open spec fn line_views(lines: Seq<LogLine>) -> Seq<(LogStream, Seq<char>)> {
    lines.map_values(|l: LogLine| line_view(l))
}

/// The last `MAX_LOG_LINES` of `lines`.
pub open spec fn capped(lines: Seq<(LogStream, Seq<char>)>) -> Seq<(LogStream, Seq<char>)> {
    if lines.len() > MAX_LOG_LINES {
        lines.skip(lines.len() - MAX_LOG_LINES)
    } else {
        lines
    }
}

/// The id of the script that an event is about.
pub open spec fn event_script(event: ProcessEvent) -> Seq<char> {
    match event {
        ProcessEvent::Log { script_id, .. } => script_id@,
        ProcessEvent::Status { script_id, .. } => script_id@,
        ProcessEvent::Exit { script_id, .. } => script_id@,
    }
}

/// Whether `after` is what `before` becomes when it takes in `event`. A log
/// line is kept without its carriage returns, and only the last
/// `MAX_LOG_LINES` lines are kept. A status sets the state and the process
/// id. An exit sets the exit code and the success, and the state that
/// follows from it. Nothing else changes.
pub open spec fn took_event(before: ScriptRuntime, event: ProcessEvent, after: ScriptRuntime) -> bool {
    &&& after.last_command == before.last_command
    &&& match event {
        ProcessEvent::Log { stream, content, .. } => {
            &&& line_views(after.logs@) == capped(
                line_views(before.logs@).push((stream, replace_text(content@, "\r"@, ""@))),
            )
            &&& after.status == before.status
            &&& after.pid == before.pid
            &&& after.exit_code == before.exit_code
            &&& after.success == before.success
        },
        ProcessEvent::Status { status, pid, .. } => {
            &&& after.status == status
            &&& after.pid == pid
            &&& after.logs == before.logs
            &&& after.exit_code == before.exit_code
            &&& after.success == before.success
        },
        ProcessEvent::Exit { exit_code, success, .. } => {
            &&& after.exit_code == exit_code
            &&& after.success == Some(success)
            &&& after.status == (if success {
                ScriptStatus::Completed
            } else {
                ScriptStatus::Failed
            })
            &&& after.pid == before.pid
            &&& after.logs == before.logs
        },
    }
}

/// Whether nothing is known of a script: it is idle and has no output.
pub open spec fn is_blank(runtime: ScriptRuntime) -> bool {
    &&& runtime.status == ScriptStatus::Idle
    &&& runtime.pid is None
    &&& runtime.logs@.len() == 0
    &&& runtime.exit_code is None
    &&& runtime.success is None
    &&& runtime.last_command is None
}

impl ScriptRuntime {
    /// Takes in one event of the script. A log line is kept without its
    /// carriage returns, and only the last `MAX_LOG_LINES` lines are kept. A
    /// status sets the state and the process id. An exit sets the exit code
    /// and the success, and the state that follows from it.
    pub fn apply(&mut self, event: ProcessEvent)
        ensures
            took_event(*old(self), event, *final(self)),
    {
        match event {
            ProcessEvent::Log { script_id: _, stream, content } => {
                let clean = replace(content.as_str(), "\r", "");
                let ghost before = line_views(self.logs@);
                self.logs.push(LogLine { stream, content: clean });
                assert(line_views(self.logs@) =~= before.push((stream, clean@)));
                let ghost full = line_views(self.logs@);
                if self.logs.len() > MAX_LOG_LINES {
                    let drop = self.logs.len() - MAX_LOG_LINES;
                    let mut kept: Vec<LogLine> = Vec::new();
                    core::mem::swap(&mut self.logs, &mut kept);
                    let rest = kept.split_off(drop);
                    self.logs = rest;
                    assert(line_views(self.logs@) =~= full.skip(drop as int));
                }
            },
            ProcessEvent::Status { script_id: _, status, pid } => {
                self.status = status;
                self.pid = pid;
            },
            ProcessEvent::Exit { script_id: _, exit_code, success } => {
                self.exit_code = exit_code;
                self.success = Some(success);
                self.status = if success {
                    ScriptStatus::Completed
                } else {
                    ScriptStatus::Failed
                };
            },
        }
    }
}

/// What is known of each script, by script id.
pub struct Runtimes {
    pub entries: Vec<(String, ScriptRuntime)>,
}

impl Runtimes {
    /// Nothing is known of any script.
    pub fn new() -> (runtimes: Self)
        ensures
            runtimes.entries@.len() == 0,
    {
        Runtimes { entries: Vec::new() }
    }

    /// What is known of the script `script_id`, if anything.
    pub fn get(&self, script_id: &str) -> (runtime: Option<&ScriptRuntime>)
        ensures
            match runtime {
                Some(r) => value_of(self.entries@, script_id@) == Some(*r),
                None => value_of(self.entries@, script_id@) is None,
            },
    {
        match position_of(&self.entries, script_id) {
            Some(at) => Some(&self.entries[at].1),
            None => None,
        }
    }

    /// Where the script `script_id` stands in the list; it is entered at
    /// the end, with nothing known of it, where it was not in the list.
    pub fn slot(&mut self, script_id: &str) -> (at: usize)
        ensures
            at < final(self).entries@.len(),
            final(self).entries@[at as int].0@ == script_id@,
            forall|k: int| 0 <= k < at ==> final(self).entries@[k].0@ != script_id@,
            match value_of(old(self).entries@, script_id@) {
                Some(_) => final(self).entries@ == old(self).entries@,
                None => {
                    &&& final(self).entries@.len() == old(self).entries@.len() + 1
                    &&& at == old(self).entries@.len()
                    &&& final(self).entries@.take(at as int) == old(self).entries@
                    &&& final(self).entries@[at as int].1.status == ScriptStatus::Idle
                    &&& final(self).entries@[at as int].1.logs@.len() == 0
                    &&& final(self).entries@[at as int].1.pid is None
                    &&& final(self).entries@[at as int].1.exit_code is None
                    &&& final(self).entries@[at as int].1.success is None
                    &&& final(self).entries@[at as int].1.last_command is None
                },
            },
    {
        match position_of(&self.entries, script_id) {
            Some(at) => at,
            None => {
                let ghost before = self.entries@;
                self.entries.push((script_id.to_owned(), ScriptRuntime::default()));
                assert(self.entries@.take(before.len() as int) =~= before);
                self.entries.len() - 1
            },
        }
    }

    /// Takes in one event: the script it is about is entered into the list
    /// if need be, and takes the event; nothing else changes.
    pub fn handle_process_event(&mut self, event: ProcessEvent)
        ensures
            final(self).entries@.len() == old(self).entries@.len() + (if value_of(
                old(self).entries@,
                event_script(event),
            ) is Some {
                0int
            } else {
                1int
            }),
            value_of(final(self).entries@, event_script(event)) is Some,
            match value_of(old(self).entries@, event_script(event)) {
                Some(before) => took_event(
                    before,
                    event,
                    value_of(final(self).entries@, event_script(event))->Some_0,
                ),
                None => exists|blank: ScriptRuntime|
                    is_blank(blank) && took_event(
                        blank,
                        event,
                        value_of(final(self).entries@, event_script(event))->Some_0,
                    ),
            },
            forall|k: int|
                0 <= k < old(self).entries@.len() && old(self).entries@[k].0@ != event_script(event)
                    ==> #[trigger] final(self).entries@[k] == old(self).entries@[k],
    {
        let id = match &event {
            ProcessEvent::Log { script_id, .. } => script_id.clone(),
            ProcessEvent::Status { script_id, .. } => script_id.clone(),
            ProcessEvent::Exit { script_id, .. } => script_id.clone(),
        };
        let at = self.slot(id.as_str());
        let ghost middle = self.entries@;
        proof {
            lemma_value_at(middle, at as int);
        }
        let mut entry = self.entries.remove(at);
        let ghost before = entry.1;
        entry.1.apply(event);
        self.entries.insert(at, entry);
        proof {
            assert forall|k: int|
                0 <= k < old(self).entries@.len() && old(self).entries@[k].0@ != event_script(event)
                    implies #[trigger] self.entries@[k] == old(self).entries@[k] by {
                assert(k != at);
                assert(self.entries@[k] == middle[k]);
                if value_of(old(self).entries@, event_script(event)) is None {
                    assert(middle.take(at as int)[k] == middle[k]);
                }
            }
            lemma_value_at(self.entries@, at as int);
            if value_of(old(self).entries@, event_script(event)) is None {
                assert(is_blank(before));
            }
        }
    }
}

proof fn lemma_value_at<V>(pairs: Seq<(String, V)>, at: int)
    requires
        0 <= at < pairs.len(),
        forall|k: int| 0 <= k < at ==> (#[trigger] pairs[k]).0@ != pairs[at].0@,
    ensures
        value_of(pairs, pairs[at].0@) == Some(pairs[at].1),
    decreases at,
{
    if at > 0 {
        let rest = pairs.drop_first();
        assert forall|k: int| 0 <= k < at - 1 implies (#[trigger] rest[k]).0@ != rest[at - 1].0@ by {
            assert(rest[k] == pairs[k + 1]);
        }
        assert(rest[at - 1] == pairs[at]);
        lemma_value_at(rest, at - 1);
    }
}

/// What a key asks for while the list of scripts is shown.
#[derive(Clone, Copy, Debug, PartialEq, Eq, Structural)]
pub enum NormalAction {
    Nothing,
    Quit,
    MoveDown,
    MoveUp,
    ScrollOutputDown,
    ScrollOutputUp,
    MoveTop,
    MoveBottom,
    TogglePanel,
    ClearFilter,
    QuickRun,
    EnterRun,
    StopSelected,
    EnterSearch,
    ClearLogs,
    ToggleAutoScroll,
    Reload,
    ShowHelp,
}

/// What `key` asks for in normal mode, with or without the control key
/// held, while `panel` has the focus.
pub open spec fn normal_meaning(key: Key, control: bool, panel: ActivePanel) -> NormalAction {
    match key {
        Key::Char('q') => NormalAction::Quit,
        Key::Char('c') => if control {
            NormalAction::Quit
        } else if panel == ActivePanel::Output {
            NormalAction::ClearLogs
        } else {
            NormalAction::Nothing
        },
        Key::Char('j') | Key::Down => if panel == ActivePanel::ScriptList {
            NormalAction::MoveDown
        } else {
            NormalAction::ScrollOutputDown
        },
        Key::Char('k') | Key::Up => if panel == ActivePanel::ScriptList {
            NormalAction::MoveUp
        } else {
            NormalAction::ScrollOutputUp
        },
        Key::Char('g') => NormalAction::MoveTop,
        Key::Char('G') => NormalAction::MoveBottom,
        Key::Tab => NormalAction::TogglePanel,
        Key::Esc => NormalAction::ClearFilter,
        Key::Enter => if control {
            NormalAction::QuickRun
        } else {
            NormalAction::EnterRun
        },
        Key::Char('s') => NormalAction::StopSelected,
        Key::Char('/') => NormalAction::EnterSearch,
        Key::Char('f') => if panel == ActivePanel::Output {
            NormalAction::ToggleAutoScroll
        } else {
            NormalAction::Nothing
        },
        Key::Char('r') => NormalAction::Reload,
        Key::Char('?') => NormalAction::ShowHelp,
        _ => NormalAction::Nothing,
    }
}

/// What `key` asks for in normal mode.
pub fn handle_normal(key: Key, control: bool, panel: ActivePanel) -> (action: NormalAction)
    ensures
        action == normal_meaning(key, control, panel),
{
    let on_list = match panel {
        ActivePanel::ScriptList => true,
        ActivePanel::Output => false,
    };
    match key {
        Key::Char('q') => NormalAction::Quit,
        Key::Char('c') => {
            if control {
                NormalAction::Quit
            } else if !on_list {
                NormalAction::ClearLogs
            } else {
                NormalAction::Nothing
            }
        },
        Key::Char('j') | Key::Down => {
            if on_list {
                NormalAction::MoveDown
            } else {
                NormalAction::ScrollOutputDown
            }
        },
        Key::Char('k') | Key::Up => {
            if on_list {
                NormalAction::MoveUp
            } else {
                NormalAction::ScrollOutputUp
            }
        },
        Key::Char('g') => NormalAction::MoveTop,
        Key::Char('G') => NormalAction::MoveBottom,
        Key::Tab => NormalAction::TogglePanel,
        Key::Esc => NormalAction::ClearFilter,
        Key::Enter => {
            if control {
                NormalAction::QuickRun
            } else {
                NormalAction::EnterRun
            }
        },
        Key::Char('s') => NormalAction::StopSelected,
        Key::Char('/') => NormalAction::EnterSearch,
        Key::Char('f') => {
            if !on_list {
                NormalAction::ToggleAutoScroll
            } else {
                NormalAction::Nothing
            }
        },
        Key::Char('r') => NormalAction::Reload,
        Key::Char('?') => NormalAction::ShowHelp,
        _ => NormalAction::Nothing,
    }
}

/// What a key asks for while the user types a search.
#[derive(Clone, Copy, Debug, PartialEq, Eq, Structural)]
pub enum SearchAction {
    Nothing,
    Exit,
    Confirm,
    Backspace,
    Input(char),
}

/// What `key` asks for while the user types a search.
pub fn handle_search(key: Key) -> (action: SearchAction)
    ensures
        action == (match key {
            Key::Esc => SearchAction::Exit,
            Key::Enter => SearchAction::Confirm,
            Key::Backspace => SearchAction::Backspace,
            Key::Char(c) => SearchAction::Input(c),
            _ => SearchAction::Nothing,
        }),
{
    match key {
        Key::Esc => SearchAction::Exit,
        Key::Enter => SearchAction::Confirm,
        Key::Backspace => SearchAction::Backspace,
        Key::Char(c) => SearchAction::Input(c),
        _ => SearchAction::Nothing,
    }
}

/// Whether `key` closes the help: Escape, `q` and `?` do.
pub fn handle_help(key: Key) -> (closes: bool)
    ensures
        closes == (key == Key::Esc || key == Key::Char('q') || key == Key::Char('?')),
{
    match key {
        Key::Esc | Key::Char('q') | Key::Char('?') => true,
        _ => false,
    }
}

/// Whether a script matches a search, both in lower case: the search
/// stands in its name, its description, one of its tags or its command.
pub open spec fn script_matches(script: GlobalScript, query: Seq<char>) -> bool {
    ||| spec_contains(lowercase_text(script.name@), query)
    ||| spec_contains(
        lowercase_text(
            match script.description {
                Some(d) => d@,
                None => seq![],
            },
        ),
        query,
    )
    ||| (exists|t: int|
        0 <= t < script.tags@.len() && spec_contains(
            lowercase_text(#[trigger] script.tags@[t]@),
            query,
        ))
    ||| spec_contains(lowercase_text(script.command@), query)
}

/// Whether `script` is shown for the search `search`: every script is
/// while nothing is searched for.
pub open spec fn is_shown(script: GlobalScript, search: Seq<char>) -> bool {
    search.len() == 0 || script_matches(script, lowercase_text(search))
}

fn matches_query(script: &GlobalScript, query: &str) -> (found: bool)
    ensures
        found == script_matches(*script, query@),
{
    if contains(to_lowercase(script.name.as_str()).as_str(), query) {
        return true;
    }
    proof {
        reveal_strlit("");
        assert(""@ =~= Seq::<char>::empty());
    }
    let description = match &script.description {
        Some(d) => to_lowercase(d.as_str()),
        None => to_lowercase(""),
    };
    if contains(description.as_str(), query) {
        return true;
    }
    let mut t: usize = 0;
    while t < script.tags.len()
        invariant
            t <= script.tags@.len(),
            forall|k: int|
                0 <= k < t ==> !spec_contains(lowercase_text(#[trigger] script.tags@[k]@), query@),
        decreases script.tags@.len() - t,
    {
        if contains(to_lowercase(script.tags[t].as_str()).as_str(), query) {
            return true;
        }
        t += 1;
    }
    contains(to_lowercase(script.command.as_str()).as_str(), query)
}

/// The indices of the scripts that are shown for `search`, in order.
pub fn filter_scripts(scripts: &Vec<GlobalScript>, search: &str) -> (indices: Vec<usize>)
    ensures
        forall|k: int| 0 <= k < indices@.len() ==> (#[trigger] indices@[k]) < scripts@.len(),
        forall|k: int|
            0 <= k < indices@.len() ==> is_shown(scripts@[(#[trigger] indices@[k]) as int], search@),
        forall|a: int, b: int|
            0 <= a < b < indices@.len() ==> (#[trigger] indices@[a]) < (#[trigger] indices@[b]),
        forall|i: int|
            0 <= i < scripts@.len() && is_shown(#[trigger] scripts@[i], search@) ==> exists|k: int|
                0 <= k < indices@.len() && #[trigger] indices@[k] == i,
{
    let query = to_lowercase(search);
    let all = search.is_empty();
    let mut indices: Vec<usize> = Vec::new();
    let mut i: usize = 0;
    while i < scripts.len()
        invariant
            i <= scripts@.len(),
            all == (search@.len() == 0),
            query@ == lowercase_text(search@),
            forall|k: int| 0 <= k < indices@.len() ==> (#[trigger] indices@[k]) < i,
            forall|k: int|
                0 <= k < indices@.len() ==> is_shown(
                    scripts@[(#[trigger] indices@[k]) as int],
                    search@,
                ),
            forall|a: int, b: int|
                0 <= a < b < indices@.len() ==> (#[trigger] indices@[a]) < (
                #[trigger] indices@[b]),
            forall|j: int|
                0 <= j < i && is_shown(#[trigger] scripts@[j], search@) ==> exists|k: int|
                    0 <= k < indices@.len() && #[trigger] indices@[k] == j,
        decreases scripts@.len() - i,
    {
        let ghost before = indices@;
        if all || matches_query(&scripts[i], query.as_str()) {
            indices.push(i);
            proof {
                assert forall|j: int|
                    0 <= j < i + 1 && is_shown(#[trigger] scripts@[j], search@) implies exists|
                    k: int,
                | 0 <= k < indices@.len() && #[trigger] indices@[k] == j by {
                    if j < i {
                        let k = choose|k: int| 0 <= k < before.len() && #[trigger] before[k] == j;
                        assert(indices@[k] == j);
                    } else {
                        assert(indices@[before.len() as int] == j);
                    }
                }
            }
        }
        i += 1;
    }
    indices
}

/// The selection after the list of shown scripts has changed: the first
/// entry where the list is empty, the last where the selection was beyond
/// it, else as before.
pub fn clamp_selection(selected_index: usize, shown: usize) -> (selected: usize)
    ensures
        selected == (if shown == 0 {
            0
        } else if selected_index >= shown {
            (shown - 1) as usize
        } else {
            selected_index
        }),
{
    if shown == 0 {
        0
    } else if selected_index >= shown {
        shown - 1
    } else {
        selected_index
    }
}

/// The selection one entry up.
pub fn move_up(selected_index: usize) -> (selected: usize)
    ensures
        selected == (if selected_index > 0 {
            (selected_index - 1) as usize
        } else {
            0
        }),
{
    if selected_index > 0 {
        selected_index - 1
    } else {
        0
    }
}

/// The selection one entry down, among `shown` entries.
pub fn move_down(selected_index: usize, shown: usize) -> (selected: usize)
    ensures
        selected == (if shown > 0 && selected_index < shown - 1 {
            (selected_index + 1) as usize
        } else {
            selected_index
        }),
{
    if shown > 0 && selected_index < shown - 1 {
        selected_index + 1
    } else {
        selected_index
    }
}

/// The selection on the last of `shown` entries.
pub fn move_bottom(selected_index: usize, shown: usize) -> (selected: usize)
    ensures
        selected == (if shown > 0 {
            (shown - 1) as usize
        } else {
            selected_index
        }),
{
    if shown > 0 {
        shown - 1
    } else {
        selected_index
    }
}

/// The other panel.
pub fn toggle_panel(panel: ActivePanel) -> (other: ActivePanel)
    ensures
        other != panel,
{
    match panel {
        ActivePanel::ScriptList => ActivePanel::Output,
        ActivePanel::Output => ActivePanel::ScriptList,
    }
}

/// The value of a hexadecimal digit, if `c` is one.
pub open spec fn hex_value(c: char) -> Option<int> {
    if '0' <= c <= '9' {
        Some(c as u32 - '0' as u32)
    } else if 'a' <= c <= 'f' {
        Some(c as u32 - 'a' as u32 + 10)
    } else if 'A' <= c <= 'F' {
        Some(c as u32 - 'A' as u32 + 10)
    } else {
        None
    }
}

/// The byte that two hexadecimal digits stand for.
pub open spec fn hex_byte(high: char, low: char) -> Option<int> {
    match (hex_value(high), hex_value(low)) {
        (Some(h), Some(l)) => Some(16 * h + l),
        _ => None,
    }
}

/// The colour that a text such as `#3b82f6` stands for: six hexadecimal
/// digits after any number of `#`, as red, green and blue.
pub open spec fn hex_color(text: Seq<char>) -> Option<(int, int, int)> {
    let digits = strip_leading(text, '#');
    if digits.len() == 6 {
        match (
            hex_byte(digits[0], digits[1]),
            hex_byte(digits[2], digits[3]),
            hex_byte(digits[4], digits[5]),
        ) {
            (Some(r), Some(g), Some(b)) => Some((r, g, b)),
            _ => None,
        }
    } else {
        None
    }
}

fn digit_value(c: char) -> (value: Option<u8>)
    ensures
        match value {
            Some(v) => hex_value(c) == Some(v as int) && v < 16,
            None => hex_value(c) is None,
        },
{
    let n = c as u32;
    if '0' <= c && c <= '9' {
        Some((n - '0' as u32) as u8)
    } else if 'a' <= c && c <= 'f' {
        Some((n - 'a' as u32 + 10) as u8)
    } else if 'A' <= c && c <= 'F' {
        Some((n - 'A' as u32 + 10) as u8)
    } else {
        None
    }
}

fn byte_value(high: char, low: char) -> (value: Option<u8>)
    ensures
        match value {
            Some(v) => hex_byte(high, low) == Some(v as int),
            None => hex_byte(high, low) is None,
        },
{
    match (digit_value(high), digit_value(low)) {
        (Some(h), Some(l)) => Some(16 * h + l),
        _ => None,
    }
}

/// Reads a colour off a hexadecimal text; `None` where the text is none.
pub fn color_from_hex(hex: &str) -> (color: Option<(u8, u8, u8)>)
    ensures
        match color {
            Some((r, g, b)) => hex_color(hex@) == Some((r as int, g as int, b as int)),
            None => hex_color(hex@) is None,
        },
{
    let digits = strip_leading_chars(&chars_of(hex), '#');
    if digits.len() != 6 {
        return None;
    }
    match (
        byte_value(digits[0], digits[1]),
        byte_value(digits[2], digits[3]),
        byte_value(digits[4], digits[5]),
    ) {
        (Some(r), Some(g), Some(b)) => Some((r, g, b)),
        _ => None,
    }
}

/// A text cut to `max_len` characters: as it is where it is no longer, else
/// its first `max_len - 3` characters, or none where that is negative, and
/// three dots.
pub open spec fn truncated(text: Seq<char>, max_len: int) -> Seq<char> {
    if text.len() <= max_len {
        text
    } else if max_len >= 3 {
        text.subrange(0, max_len - 3) + "..."@
    } else {
        "..."@
    }
}

/// Cuts a text to `max_len` characters for display.
pub fn truncate_str(s: &str, max_len: usize) -> (text: String)
    ensures
        text@ == truncated(s@, max_len as int),
{
    let chars = chars_of(s);
    if chars.len() <= max_len {
        return s.to_owned();
    }
    let keep = if max_len >= 3 {
        max_len - 3
    } else {
        0
    };
    let mut text = text_of(&slice_of(&chars, 0, keep));
    text.append("...");
    assert(chars@.subrange(0, 0) =~= Seq::<char>::empty());
    assert(Seq::<char>::empty() + "..."@ =~= "..."@);
    text
}

} // verus!
