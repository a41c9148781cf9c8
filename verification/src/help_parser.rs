//! Reading the parameters of a command off its help text.
//!
//! The shapes of the lines are recognised by regular expressions, which the
//! `regex` crate matches. What a pattern matches is not spelled out here: it
//! has a name, and the parser is stated over what the matches are. The
//! parser itself, `parse_shapes`, takes the matches as plain values.

use crate::models::{ScriptParamType, ScriptParameter};
use crate::registry::opt_text;
use crate::text::{
    chars_of, concat, contains, decimal_text, decimal_u64, lines_of, lines_text, lowercase_text,
    replace, replace_text, same_text, slice_of, spec_contains, spec_starts_with,
    split_lines, split_whitespace, starts_with, strip_leading, strip_leading_chars, text_of,
    to_lowercase, to_uppercase, trim, trim_bounds, trim_text, uppercase_text, words,
};
use regex::Regex;
use vstd::prelude::*;

verus! {

/// A compiled regular expression of the `regex` crate, `regex::Regex`. Its
/// inside is not looked at.
#[verifier::external_type_specification]
#[verifier::external_body]
pub struct ExRegex(Regex);

/// Whether `regex::Regex::new` accepts `pattern`: it is a valid regular
/// expression and compiles within the default size limit.
pub uninterp spec fn regex_accepts(pattern: Seq<char>) -> bool;

/// What `regex::Regex::is_match` says of `text` for `pattern`: whether the
/// pattern matches somewhere in the text.
pub uninterp spec fn regex_matches(pattern: Seq<char>, text: Seq<char>) -> bool;

/// What `regex::Regex::captures` finds in `text` for `pattern`: `None`
/// where the pattern does not match; else, for the leftmost match, what each
/// capture group matched, the whole match first, with `None` for a group
/// that took no part.
pub uninterp spec fn regex_groups(pattern: Seq<char>, text: Seq<char>) -> Option<
    Seq<Option<Seq<char>>>,
>;

/// A regular expression together with the text it was compiled from.
pub struct Pattern {
    source: String,
    compiled: Regex,
}

impl Pattern {
    /// The text that the pattern was compiled from.
    pub closed spec fn source(&self) -> Seq<char> {
        self.source@
    }
}

/// The capture groups of a match, as mathematical values.
pub open spec fn group_views(groups: Seq<Option<String>>) -> Seq<Option<Seq<char>>> {
    groups.map_values(|g: Option<String>| opt_text(g))
}

/// An optional match, as a mathematical value.
pub open spec fn match_view(found: Option<Vec<Option<String>>>) -> Option<Seq<Option<Seq<char>>>> {
    match found {
        Some(groups) => Some(group_views(groups@)),
        None => None,
    }
}

/// Compiles `source`.
///
/// Calls `regex::Regex::new`, which returns an error for an invalid pattern
/// and for one that would compile to more than the default size limit. The
/// error is dropped. The pattern keeps the text it came from.
#[verifier::external_body]
fn compile(source: &str) -> (pattern: Option<Pattern>)
    ensures
        pattern is Some <==> regex_accepts(source@),
        pattern is Some ==> pattern->Some_0.source() == source@,
{
    match Regex::new(source) {
        Ok(compiled) => Some(Pattern { source: source.to_owned(), compiled }),
        Err(_) => None,
    }
}

/// Whether `pattern` matches somewhere in `text`.
///
/// Calls `regex::Regex::is_match` on the expression that was compiled from
/// the pattern's text.
#[verifier::external_body]
fn is_match(pattern: &Pattern, text: &str) -> (found: bool)
    ensures
        found == regex_matches(pattern.source(), text@),
{
    pattern.compiled.is_match(text)
}

/// The capture groups of the leftmost match of `pattern` in `text`.
///
/// Calls `regex::Regex::captures` on the expression that was compiled from
/// the pattern's text, and copies out what each group matched, in the order
/// of `Captures::iter`: the whole match first, `None` for a group that took
/// no part.
#[verifier::external_body]
fn captures(pattern: &Pattern, text: &str) -> (found: Option<Vec<Option<String>>>)
    ensures
        match_view(found) == regex_groups(pattern.source(), text@),
{
    pattern.compiled.captures(text).map(
        |caps| caps.iter().map(|group| group.map(|m| m.as_str().to_owned())).collect(),
    )
}

/// The pattern of a value placeholder: upper-case words, possibly several
/// and with `...` or bracketed parts, or something in angle brackets, or
/// something in square brackets.
pub open spec fn value_hint_pattern() -> Seq<char> {
    r"[A-Z][A-Z0-9_.*-]*(?:[ \t]+(?:\.\.\.|[A-Z][A-Z0-9_.*-]*(?:[ \t]+\.\.\.)?|\[[^\]\n]+\]))*|<[^>\n]+>|\[[^\]\n]+\]"@
}

/// The pattern of an option line that begins with a short flag. Its groups:
/// the short flag, the long flag, the value placeholder, the description.
pub open spec fn short_option_pattern() -> Seq<char> {
    r"^[ \t]{1,8}(-[a-zA-Z0-9])(?:[ \t]*,?[ \t]*(--[\w][\w-]*))?(?:[ \t]+(?:=[ \t]*)?("@
        + value_hint_pattern() + r"))?(?:[ \t]{2,}(.+))?$"@
}

/// The pattern of an option line with a long flag only. Its groups: the
/// long flag, the value placeholder, the description.
pub open spec fn long_option_pattern() -> Seq<char> {
    r"^[ \t]{2,}(--[\w][\w-]*)(?:[ \t]+(?:=[ \t]*)?("@ + value_hint_pattern()
        + r"))?(?:[ \t]{2,}(.+))?$"@
}

/// The pattern of a line that continues a description. Its group: the text.
pub open spec fn continuation_pattern() -> Seq<char> {
    r"^[ \t]{10,}(\S.*)$"@
}

/// The pattern of a section header.
pub open spec fn section_header_pattern() -> Seq<char> {
    r"^[a-zA-Z][\w\s]*:\s*$"@
}

/// The pattern of a positional argument's line. Its groups: the name, the
/// description.
pub open spec fn positional_pattern() -> Seq<char> {
    r"^[ \t]{2,8}([a-zA-Z][a-zA-Z0-9_-]*)(?:[ \t]{2,}(.+))?$"@
}

/// The pattern of a default value inside a description. Its group: the
/// value.
pub open spec fn default_pattern() -> Seq<char> {
    r#"(?i)(?:\(|\[)\s*defaults?\s*[:=]\s*['"]?([^'"\)\]]+?)['"]?\s*(?:\)|\])"#@
}

/// The group `index` of a match; `None` where the group took no part or is
/// not there.
pub open spec fn group_of(groups: Seq<Option<Seq<char>>>, index: int) -> Option<Seq<char>> {
    if 0 <= index < groups.len() {
        groups[index]
    } else {
        None
    }
}

/// The group `index` of a match.
pub fn group_at(groups: &Vec<Option<String>>, index: usize) -> (group: Option<String>)
    ensures
        opt_text(group) == group_of(group_views(groups@), index as int),
{
    if index < groups.len() {
        crate::events::clone_opt_text(&groups[index])
    } else {
        None
    }
}

/// The name of a parameter, from its flags: the long flag without its
/// leading dashes and with underscores for the other dashes; else the short
/// flag without its leading dashes; else `unknown`.
pub open spec fn derived_name(long: Option<Seq<char>>, short: Option<Seq<char>>) -> Seq<char> {
    match long {
        Some(flag) => replace_text(strip_leading(flag, '-'), "-"@, "_"@),
        None => match short {
            Some(flag) => strip_leading(flag, '-'),
            None => "unknown"@,
        },
    }
}

/// Derives the name of a parameter from its flags.
pub fn derive_name(long: Option<&str>, short: Option<&str>) -> (name: String)
    ensures
        name@ == derived_name(
            match long {
                Some(flag) => Some(flag@),
                None => None,
            },
            match short {
                Some(flag) => Some(flag@),
                None => None,
            },
        ),
{
    match long {
        Some(flag) => {
            let bare = text_of(&strip_leading_chars(&chars_of(flag), '-'));
            replace(bare.as_str(), "-", "_")
        },
        None => match short {
            Some(flag) => text_of(&strip_leading_chars(&chars_of(flag), '-')),
            None => "unknown".to_owned(),
        },
    }
}

/// Whether a word of a value placeholder names a value: it begins with an
/// ASCII upper-case letter.
pub open spec fn names_value(word: Seq<char>) -> bool {
    word.len() > 0 && 'A' <= word[0] <= 'Z'
}

/// How many of `list` name a value.
pub open spec fn value_count(list: Seq<Seq<char>>) -> nat
    decreases list.len(),
{
    if list.len() == 0 {
        0
    } else {
        value_count(list.drop_last()) + (if names_value(list.last()) {
            1nat
        } else {
            0nat
        })
    }
}

/// How many values a placeholder asks for: `+` where it holds a bracket and
/// an ellipsis; the number of its value names where that is more than one;
/// else nothing.
pub open spec fn nargs_of(hint: Option<Seq<char>>) -> Option<Seq<char>> {
    match hint {
        None => None,
        Some(text) => if spec_contains(text, "["@) && spec_contains(text, "..."@) {
            Some("+"@)
        } else if value_count(words(text)) > 1 {
            Some(decimal_text(value_count(words(text))))
        } else {
            None
        },
    }
}

/// Detects from a value placeholder how many values a parameter takes.
pub fn detect_nargs(value_hint: Option<&str>) -> (nargs: Option<String>)
    ensures
        opt_text(nargs) == nargs_of(
            match value_hint {
                Some(hint) => Some(hint@),
                None => None,
            },
        ),
{
    let hint = match value_hint {
        Some(hint) => hint,
        None => {
            return None;
        },
    };
    if contains(hint, "[") && contains(hint, "...") {
        return Some("+".to_owned());
    }
    let list = split_whitespace(hint);
    let mut count: usize = 0;
    let mut i: usize = 0;
    assert(lines_text(list@).take(0) =~= Seq::<Seq<char>>::empty());
    while i < list.len()
        invariant
            i <= list@.len(),
            count <= i,
            count == value_count(lines_text(list@).take(i as int)),
        decreases list@.len() - i,
    {
        let ghost upto = lines_text(list@).take(i + 1);
        assert(upto.drop_last() =~= lines_text(list@).take(i as int));
        assert(upto.last() == list@[i as int]@);
        let word = chars_of(list[i].as_str());
        if word.len() > 0 && 'A' <= word[0] && word[0] <= 'Z' {
            count += 1;
        }
        i += 1;
    }
    assert(lines_text(list@).take(i as int) =~= lines_text(list@));
    if count > 1 {
        Some(decimal_u64(count as u64))
    } else {
        None
    }
}

/// Whether `c` is a bracket of a value placeholder.
pub open spec fn is_bracket(c: char) -> bool {
    c == '<' || c == '>' || c == '[' || c == ']'
}

/// `s` without the brackets at its start.
pub open spec fn strip_brackets_start(s: Seq<char>) -> Seq<char>
    decreases s.len(),
{
    if s.len() > 0 && is_bracket(s[0]) {
        strip_brackets_start(s.drop_first())
    } else {
        s
    }
}

/// `s` without the brackets at its end.
pub open spec fn strip_brackets_end(s: Seq<char>) -> Seq<char>
    decreases s.len(),
{
    if s.len() > 0 && is_bracket(s.last()) {
        strip_brackets_end(s.drop_last())
    } else {
        s
    }
}

/// `s` without the ellipses at its end.
pub open spec fn strip_ellipses(s: Seq<char>) -> Seq<char>
    decreases s.len(),
{
    if s.len() >= 3 && s[s.len() - 1] == '.' && s[s.len() - 2] == '.' && s[s.len() - 3] == '.' {
        strip_ellipses(s.take(s.len() - 3))
    } else {
        s
    }
}

/// The word that an upper-case value placeholder comes down to: without the
/// brackets around it, the ellipses at its end and the white space around
/// what is left.
pub open spec fn hint_word(upper: Seq<char>) -> Seq<char> {
    trim_text(strip_ellipses(strip_brackets_end(strip_brackets_start(upper))))
}

/// The type that the word of a value placeholder stands for.
pub open spec fn type_of_word(word: Seq<char>) -> ScriptParamType {
    if word == "NUM"@ || word == "NUMBER"@ || word == "COUNT"@ || word == "N"@ || word == "PORT"@
        || word == "INT"@ || word == "INTEGER"@ {
        ScriptParamType::Number
    } else if word == "FILE"@ || word == "PATH"@ || word == "DIR"@ || word == "DIRECTORY"@ || word
        == "FOLDER"@ {
        ScriptParamType::Path
    } else {
        ScriptParamType::String
    }
}

/// The type that a lower-case description of a positional argument hints
/// at: a number where it speaks of a number, a count or a port; else a path
/// where it speaks of a path, a directory or a file; else a string.
pub open spec fn type_of_description(lower: Seq<char>) -> ScriptParamType {
    if spec_contains(lower, "number"@) || spec_contains(lower, "count"@) || spec_contains(
        lower,
        "port"@,
    ) {
        ScriptParamType::Number
    } else if spec_contains(lower, "path"@) || spec_contains(lower, "directory"@) || spec_contains(
        lower,
        "file"@,
    ) {
        ScriptParamType::Path
    } else {
        ScriptParamType::String
    }
}

/// The type that the word of a value placeholder stands for.
pub fn word_type(w: &str) -> (param_type: ScriptParamType)
    ensures
        param_type == type_of_word(w@),
{
    if same_text(w, "NUM") || same_text(w, "NUMBER") || same_text(w, "COUNT") || same_text(w, "N")
        || same_text(w, "PORT") || same_text(w, "INT") || same_text(w, "INTEGER") {
        ScriptParamType::Number
    } else if same_text(w, "FILE") || same_text(w, "PATH") || same_text(w, "DIR") || same_text(
        w,
        "DIRECTORY",
    ) || same_text(w, "FOLDER") {
        ScriptParamType::Path
    } else {
        ScriptParamType::String
    }
}

/// The type that an upper-case value placeholder stands for.
pub fn type_of_hint(upper: &str) -> (param_type: ScriptParamType)
    ensures
        param_type == type_of_word(hint_word(upper@)),
{
    let chars = chars_of(upper);
    let mut start: usize = 0;
    assert(chars@.skip(0) =~= chars@);
    while start < chars.len() && (chars[start] == '<' || chars[start] == '>' || chars[start] == '['
        || chars[start] == ']')
        invariant
            start <= chars@.len(),
            strip_brackets_start(chars@.skip(start as int)) == strip_brackets_start(chars@),
        decreases chars@.len() - start,
    {
        assert(chars@.skip(start as int).drop_first() =~= chars@.skip(start + 1));
        assert(chars@.skip(start as int)[0] == chars@[start as int]);
        start += 1;
    }
    proof {
        let rest = chars@.skip(start as int);
        if rest.len() > 0 {
            assert(rest[0] == chars@[start as int]);
        }
    }
    let mut end: usize = chars.len();
    assert(chars@.subrange(start as int, end as int) =~= chars@.skip(start as int));
    while end > start && (chars[end - 1] == '<' || chars[end - 1] == '>' || chars[end - 1] == '['
        || chars[end - 1] == ']')
        invariant
            start <= end <= chars@.len(),
            strip_brackets_end(chars@.subrange(start as int, end as int)) == strip_brackets_end(
                strip_brackets_start(chars@),
            ),
        decreases end - start,
    {
        assert(chars@.subrange(start as int, end as int).drop_last() =~= chars@.subrange(
            start as int,
            end - 1,
        ));
        assert(chars@.subrange(start as int, end as int).last() == chars@[end - 1]);
        end -= 1;
    }
    proof {
        let kept = chars@.subrange(start as int, end as int);
        if kept.len() > 0 {
            assert(kept.last() == chars@[end - 1]);
        }
    }
    while end - start >= 3 && chars[end - 1] == '.' && chars[end - 2] == '.' && chars[end - 3]
        == '.'
        invariant
            start <= end <= chars@.len(),
            strip_ellipses(chars@.subrange(start as int, end as int)) == strip_ellipses(
                strip_brackets_end(strip_brackets_start(chars@)),
            ),
        decreases end - start,
    {
        let ghost kept = chars@.subrange(start as int, end as int);
        assert(kept.take(kept.len() - 3) =~= chars@.subrange(start as int, end - 3));
        assert(kept[kept.len() - 1] == chars@[end - 1]);
        assert(kept[kept.len() - 2] == chars@[end - 2]);
        assert(kept[kept.len() - 3] == chars@[end - 3]);
        end -= 3;
    }
    proof {
        let kept = chars@.subrange(start as int, end as int);
        if kept.len() >= 3 {
            assert(kept[kept.len() - 1] == chars@[end - 1]);
            assert(kept[kept.len() - 2] == chars@[end - 2]);
            assert(kept[kept.len() - 3] == chars@[end - 3]);
        }
    }
    let cut = slice_of(&chars, start, end);
    let (from, to) = trim_bounds(&cut);
    let word = text_of(&slice_of(&cut, from, to));
    word_type(word.as_str())
}

/// The type that a lower-case description of a positional argument hints
/// at.
pub fn type_from_description(lower: &str) -> (param_type: ScriptParamType)
    ensures
        param_type == type_of_description(lower@),
{
    if contains(lower, "number") || contains(lower, "count") || contains(lower, "port") {
        ScriptParamType::Number
    } else if contains(lower, "path") || contains(lower, "directory") || contains(lower, "file") {
        ScriptParamType::Path
    } else {
        ScriptParamType::String
    }
}

/// The type of a parameter and whether it takes a value. With a value
/// placeholder the type is that of the placeholder, in upper case. Without
/// one, a flag is a boolean that takes no value, and a positional argument
/// has the type that its description hints at, a string where it has none.
pub open spec fn deduced_type(
    value_hint: Option<Seq<char>>,
    description: Option<Seq<char>>,
    is_positional: bool,
) -> (ScriptParamType, bool) {
    match value_hint {
        Some(hint) => (type_of_word(hint_word(uppercase_text(hint))), true),
        None => if is_positional {
            match description {
                Some(text) => (type_of_description(lowercase_text(text)), true),
                None => (ScriptParamType::String, true),
            }
        } else {
            (ScriptParamType::Bool, false)
        },
    }
}

/// Deduces the type of a parameter from its value placeholder and its
/// description.
pub fn deduce_type(value_hint: Option<&str>, description: Option<&str>, is_positional: bool) -> (deduced:
    (ScriptParamType, bool))
    ensures
        deduced == deduced_type(
            match value_hint {
                Some(hint) => Some(hint@),
                None => None,
            },
            match description {
                Some(text) => Some(text@),
                None => None,
            },
            is_positional,
        ),
{
    match value_hint {
        Some(hint) => (type_of_hint(to_uppercase(hint).as_str()), true),
        None => {
            if is_positional {
                match description {
                    Some(text) => (type_from_description(to_lowercase(text).as_str()), true),
                    None => (ScriptParamType::String, true),
                }
            } else {
                (ScriptParamType::Bool, false)
            }
        },
    }
}

/// The default value that a match of the default pattern holds: its first
/// group, trimmed.
pub open spec fn default_of_match(found: Option<Seq<Option<Seq<char>>>>) -> Option<Seq<char>> {
    match found {
        None => None,
        Some(groups) => match group_of(groups, 1) {
            Some(value) => Some(trim_text(value)),
            None => None,
        },
    }
}

/// The default value that a match of the default pattern holds.
pub fn default_from_match(found: &Option<Vec<Option<String>>>) -> (value: Option<String>)
    ensures
        opt_text(value) == default_of_match(match_view(*found)),
{
    match found {
        None => None,
        Some(groups) => match group_at(groups, 1) {
            Some(value) => Some(trim(value.as_str())),
            None => None,
        },
    }
}

/// The default value that a description states, in the form
/// `(default: value)` or `[default: value]`; none where it states none, and
/// none where there is no description.
pub open spec fn default_in(description: Option<Seq<char>>) -> Option<Seq<char>> {
    match description {
        None => None,
        Some(text) => if regex_accepts(default_pattern()) {
            default_of_match(regex_groups(default_pattern(), text))
        } else {
            None
        },
    }
}

/// Extracts the default value that a description states.
pub fn extract_default(description: Option<&str>) -> (value: Option<String>)
    ensures
        opt_text(value) == default_in(
            match description {
                Some(text) => Some(text@),
                None => None,
            },
        ),
{
    let text = match description {
        Some(text) => text,
        None => {
            return None;
        },
    };
    let pattern = compile(
        r#"(?i)(?:\(|\[)\s*defaults?\s*[:=]\s*['"]?([^'"\)\]]+?)['"]?\s*(?:\)|\])"#,
    );
    match pattern {
        Some(pattern) => default_from_match(&captures(&pattern, text)),
        None => None,
    }
}

/// One line of a help text and what the patterns find in it.
#[derive(Debug, Clone)]
pub struct LineShape {
    /// The line itself.
    pub text: String,
    /// Whether the line is a section header.
    pub is_header: bool,
    /// The match of the pattern of an option with a short flag.
    pub short_option: Option<Vec<Option<String>>>,
    /// The match of the pattern of an option with a long flag only.
    pub long_option: Option<Vec<Option<String>>>,
    /// The match of the pattern of a positional argument.
    pub positional: Option<Vec<Option<String>>>,
    /// The match of the pattern of a continuation line.
    pub continuation: Option<Vec<Option<String>>>,
}

/// A `LineShape` as a mathematical value.
pub struct ShapeView {
    pub text: Seq<char>,
    pub is_header: bool,
    pub short_option: Option<Seq<Option<Seq<char>>>>,
    pub long_option: Option<Seq<Option<Seq<char>>>>,
    pub positional: Option<Seq<Option<Seq<char>>>>,
    pub continuation: Option<Seq<Option<Seq<char>>>>,
}

impl View for LineShape {
    type V = ShapeView;

    open spec fn view(&self) -> ShapeView {
        ShapeView {
            text: self.text@,
            is_header: self.is_header,
            short_option: match_view(self.short_option),
            long_option: match_view(self.long_option),
            positional: match_view(self.positional),
            continuation: match_view(self.continuation),
        }
    }
}

/// The shapes of a list, as mathematical values.
pub open spec fn shape_views(shapes: Seq<LineShape>) -> Seq<ShapeView> {
    shapes.map_values(|s: LineShape| s@)
}

/// What the patterns find in `line`.
pub open spec fn shape_of(line: Seq<char>) -> ShapeView {
    ShapeView {
        text: line,
        is_header: regex_matches(section_header_pattern(), line),
        short_option: regex_groups(short_option_pattern(), line),
        long_option: regex_groups(long_option_pattern(), line),
        positional: regex_groups(positional_pattern(), line),
        continuation: regex_groups(continuation_pattern(), line),
    }
}

/// Whether all the patterns of the parser compile.
pub open spec fn patterns_accepted() -> bool {
    &&& regex_accepts(short_option_pattern())
    &&& regex_accepts(long_option_pattern())
    &&& regex_accepts(continuation_pattern())
    &&& regex_accepts(section_header_pattern())
    &&& regex_accepts(positional_pattern())
}

/// A parameter as a mathematical value.
pub struct ParameterView {
    pub name: Seq<char>,
    pub param_type: ScriptParamType,
    pub short_flag: Option<Seq<char>>,
    pub long_flag: Option<Seq<char>>,
    pub description: Option<Seq<char>>,
    pub default_value: Option<Seq<char>>,
    pub required: bool,
    pub enum_values: Seq<Seq<char>>,
    pub nargs: Option<Seq<char>>,
}

/// A parameter as a mathematical value.
pub open spec fn parameter_view(p: ScriptParameter) -> ParameterView {
    ParameterView {
        name: p.name@,
        param_type: p.param_type,
        short_flag: opt_text(p.short_flag),
        long_flag: opt_text(p.long_flag),
        description: opt_text(p.description),
        default_value: opt_text(p.default_value),
        required: p.required,
        enum_values: lines_text(p.enum_values@),
        nargs: opt_text(p.nargs),
    }
}

/// The parameters of a list, as mathematical values.
pub open spec fn parameter_views(list: Seq<ScriptParameter>) -> Seq<ParameterView> {
    list.map_values(|p: ScriptParameter| parameter_view(p))
}

/// An optional text, trimmed.
pub open spec fn trimmed(text: Option<Seq<char>>) -> Option<Seq<char>> {
    match text {
        Some(t) => Some(trim_text(t)),
        None => None,
    }
}

/// The text that a line continues a description with, if the line is a
/// continuation line.
pub open spec fn continuation_text(shape: ShapeView) -> Option<Seq<char>> {
    match shape.continuation {
        Some(groups) => trimmed(group_of(groups, 1)),
        None => None,
    }
}

/// A description with the continuation lines from `from` on added to it,
/// each after one space, and the index of the first line that is none.
pub open spec fn extended(description: Seq<char>, shapes: Seq<ShapeView>, from: int) -> (
    Seq<char>,
    int,
)
    decreases shapes.len() - from,
{
    if 0 <= from < shapes.len() && continuation_text(shapes[from]) is Some {
        extended(
            description + " "@ + continuation_text(shapes[from])->Some_0,
            shapes,
            from + 1,
        )
    } else {
        (description, from)
    }
}

/// The whole description of a parameter and the index of the line after
/// it. A description that begins on the parameter's own line takes every
/// continuation line that follows; where the parameter's line has none, the
/// next line is the description if it is a continuation line.
pub open spec fn described(first: Option<Seq<char>>, shapes: Seq<ShapeView>, from: int) -> (
    Option<Seq<char>>,
    int,
) {
    match first {
        Some(text) => (Some(extended(text, shapes, from).0), extended(text, shapes, from).1),
        None => if 0 <= from < shapes.len() && continuation_text(shapes[from]) is Some {
            (continuation_text(shapes[from]), from + 1)
        } else {
            (None, from)
        },
    }
}

/// The parameter of an option line.
pub open spec fn option_parameter(
    short: Option<Seq<char>>,
    long: Option<Seq<char>>,
    hint: Option<Seq<char>>,
    description: Option<Seq<char>>,
) -> ParameterView {
    ParameterView {
        name: derived_name(long, short),
        param_type: deduced_type(hint, description, false).0,
        short_flag: short,
        long_flag: long,
        description,
        default_value: default_in(description),
        required: false,
        enum_values: seq![],
        nargs: nargs_of(hint),
    }
}

/// The parameter of a positional argument's line. It is required, and never
/// a boolean.
pub open spec fn positional_parameter(name: Seq<char>, description: Option<Seq<char>>) -> ParameterView {
    let deduced = deduced_type(None, description, true).0;
    ParameterView {
        name,
        param_type: if deduced == ScriptParamType::Bool {
            ScriptParamType::String
        } else {
            deduced
        },
        short_flag: None,
        long_flag: None,
        description,
        default_value: default_in(description),
        required: true,
        enum_values: seq![],
        nargs: None,
    }
}

/// Whether a parameter of `list` has the name `name`.
pub open spec fn has_parameter(list: Seq<ParameterView>, name: Seq<char>) -> bool {
    exists|i: int| 0 <= i < list.len() && (#[trigger] list[i]).name == name
}

/// `list` with `parameter` at its end, unless a parameter of that name is
/// in the list already.
pub open spec fn with_parameter(list: Seq<ParameterView>, parameter: ParameterView) -> Seq<
    ParameterView,
> {
    if has_parameter(list, parameter.name) {
        list
    } else {
        list.push(parameter)
    }
}

/// Where the parser stands.
pub struct ParserState {
    /// The index of the next line to read.
    pub index: int,
    /// Whether the section of the positional arguments is being read.
    pub in_positional: bool,
    /// The parameters found so far.
    pub parameters: Seq<ParameterView>,
}

/// Whether a section header opens the section of positional arguments.
pub open spec fn opens_positional(line: Seq<char>) -> bool {
    spec_starts_with(lowercase_text(trim_text(line)), "positional argument"@)
}

/// The parser's state after it has read the line at `state.index`, with
/// the continuation lines that belong to it.
///
/// A section header says whether positional arguments follow. An empty line
/// is skipped. A line with a short flag is an option, else a line with a
/// long flag is one; either ends the section of positional arguments. Inside
/// that section a line of the positional shape is a positional argument.
/// Every other line is skipped.
pub open spec fn after_line(shapes: Seq<ShapeView>, state: ParserState) -> ParserState {
    let i = state.index;
    let shape = shapes[i];
    let skipped = ParserState { index: i + 1, ..state };
    if shape.is_header {
        ParserState { index: i + 1, in_positional: opens_positional(shape.text), ..state }
    } else if trim_text(shape.text).len() == 0 {
        skipped
    } else if shape.short_option is Some {
        let groups = shape.short_option->Some_0;
        let found = described(trimmed(group_of(groups, 4)), shapes, i + 1);
        ParserState {
            index: found.1,
            in_positional: false,
            parameters: with_parameter(
                state.parameters,
                option_parameter(
                    group_of(groups, 1),
                    group_of(groups, 2),
                    group_of(groups, 3),
                    found.0,
                ),
            ),
        }
    } else if shape.long_option is Some {
        let groups = shape.long_option->Some_0;
        let found = described(trimmed(group_of(groups, 3)), shapes, i + 1);
        ParserState {
            index: found.1,
            in_positional: false,
            parameters: with_parameter(
                state.parameters,
                option_parameter(None, group_of(groups, 1), group_of(groups, 2), found.0),
            ),
        }
    } else if state.in_positional && shape.positional is Some && group_of(
        shape.positional->Some_0,
        1,
    ) is Some {
        let groups = shape.positional->Some_0;
        let found = described(trimmed(group_of(groups, 2)), shapes, i + 1);
        ParserState {
            index: found.1,
            in_positional: true,
            parameters: with_parameter(
                state.parameters,
                positional_parameter(group_of(groups, 1)->Some_0, found.0),
            ),
        }
    } else {
        skipped
    }
}

/// The parameters that the parser has found when it has read all lines
/// from `state.index` on.
pub open spec fn parsed_from(shapes: Seq<ShapeView>, state: ParserState) -> Seq<ParameterView>
    decreases shapes.len() - state.index,
{
    let next = after_line(shapes, state);
    if 0 <= state.index < shapes.len() && state.index < next.index <= shapes.len() {
        parsed_from(shapes, next)
    } else {
        state.parameters
    }
}

/// The parameters that the lines `shapes` define.
pub open spec fn parsed(shapes: Seq<ShapeView>) -> Seq<ParameterView> {
    parsed_from(shapes, ParserState { index: 0, in_positional: false, parameters: seq![] })
}

proof fn lemma_extended_advances(description: Seq<char>, shapes: Seq<ShapeView>, from: int)
    requires
        0 <= from <= shapes.len(),
    ensures
        from <= extended(description, shapes, from).1 <= shapes.len(),
    decreases shapes.len() - from,
{
    if from < shapes.len() && continuation_text(shapes[from]) is Some {
        lemma_extended_advances(
            description + " "@ + continuation_text(shapes[from])->Some_0,
            shapes,
            from + 1,
        );
    }
}

/// Every line that the parser reads moves it on.
pub proof fn lemma_after_line_advances(shapes: Seq<ShapeView>, state: ParserState)
    requires
        0 <= state.index < shapes.len(),
    ensures
        state.index < after_line(shapes, state).index <= shapes.len(),
{
    let i = state.index;
    let shape = shapes[i];
    if shape.short_option is Some {
        let first = trimmed(group_of(shape.short_option->Some_0, 4));
        if first is Some {
            lemma_extended_advances(first->Some_0, shapes, i + 1);
        }
    }
    if shape.long_option is Some {
        let first = trimmed(group_of(shape.long_option->Some_0, 3));
        if first is Some {
            lemma_extended_advances(first->Some_0, shapes, i + 1);
        }
    }
    if shape.positional is Some {
        let first = trimmed(group_of(shape.positional->Some_0, 2));
        if first is Some {
            lemma_extended_advances(first->Some_0, shapes, i + 1);
        }
    }
}

fn trimmed_group(groups: &Vec<Option<String>>, index: usize) -> (text: Option<String>)
    ensures
        opt_text(text) == trimmed(group_of(group_views(groups@), index as int)),
{
    match group_at(groups, index) {
        Some(text) => Some(trim(text.as_str())),
        None => None,
    }
}

fn continuation_of(shape: &LineShape) -> (text: Option<String>)
    ensures
        opt_text(text) == continuation_text(shape@),
{
    match &shape.continuation {
        Some(groups) => trimmed_group(groups, 1),
        None => None,
    }
}

fn describe(first: Option<String>, shapes: &Vec<LineShape>, from: usize) -> (found: (
    Option<String>,
    usize,
))
    requires
        from <= shapes@.len(),
    ensures
        opt_text(found.0) == described(opt_text(first), shape_views(shapes@), from as int).0,
        found.1 == described(opt_text(first), shape_views(shapes@), from as int).1,
        from <= found.1 <= shapes@.len(),
{
    let ghost views = shape_views(shapes@);
    match first {
        None => {
            if from < shapes.len() {
                assert(views[from as int] == shapes@[from as int]@);
                match continuation_of(&shapes[from]) {
                    Some(text) => (Some(text), from + 1),
                    None => (None, from),
                }
            } else {
                (None, from)
            }
        },
        Some(text) => {
            let ghost start = text@;
            let mut full = text;
            let mut next = from;
            loop
                invariant
                    from <= next <= shapes@.len(),
                    views == shape_views(shapes@),
                    extended(full@, views, next as int) == extended(start, views, from as int),
                ensures
                    next >= shapes@.len() || continuation_text(views[next as int]) is None,
                decreases shapes@.len() - next,
            {
                if next >= shapes.len() {
                    break ;
                }
                assert(views[next as int] == shapes@[next as int]@);
                match continuation_of(&shapes[next]) {
                    Some(more) => {
                        full.append(" ");
                        full.append(more.as_str());
                        next += 1;
                    },
                    None => {
                        break ;
                    },
                }
            }
            (Some(full), next)
        },
    }
}

fn knows(parameters: &Vec<ScriptParameter>, name: &str) -> (known: bool)
    ensures
        known == has_parameter(parameter_views(parameters@), name@),
{
    let mut i: usize = 0;
    while i < parameters.len()
        invariant
            i <= parameters@.len(),
            forall|k: int| 0 <= k < i ==> parameter_views(parameters@)[k].name != name@,
        decreases parameters@.len() - i,
    {
        assert(parameter_views(parameters@)[i as int].name == parameters@[i as int].name@);
        if same_text(parameters[i].name.as_str(), name) {
            return true;
        }
        i += 1;
    }
    false
}

fn as_text(text: &Option<String>) -> (borrowed: Option<&str>)
    ensures
        match borrowed {
            Some(t) => opt_text(*text) == Some(t@),
            None => *text is None,
        },
{
    match text {
        Some(t) => Some(t.as_str()),
        None => None,
    }
}

fn add_option(
    parameters: &mut Vec<ScriptParameter>,
    short: Option<String>,
    long: Option<String>,
    hint: Option<String>,
    description: Option<String>,
)
    ensures
        parameter_views(final(parameters)@) == with_parameter(
            parameter_views(old(parameters)@),
            option_parameter(
                opt_text(short),
                opt_text(long),
                opt_text(hint),
                opt_text(description),
            ),
        ),
{
    let name = derive_name(as_text(&long), as_text(&short));
    if !knows(parameters, name.as_str()) {
        let (param_type, _) = deduce_type(as_text(&hint), as_text(&description), false);
        let default_value = extract_default(as_text(&description));
        let nargs = detect_nargs(as_text(&hint));
        let ghost before = parameter_views(parameters@);
        let parameter = ScriptParameter {
            name,
            param_type,
            short_flag: short,
            long_flag: long,
            description,
            default_value,
            required: false,
            enum_values: Vec::new(),
            nargs,
        };
        assert(parameter_view(parameter).enum_values =~= Seq::<Seq<char>>::empty());
        parameters.push(parameter);
        assert(parameter_views(parameters@) =~= before.push(parameter_view(parameter)));
    }
}

fn add_positional(
    parameters: &mut Vec<ScriptParameter>,
    name: String,
    description: Option<String>,
)
    ensures
        parameter_views(final(parameters)@) == with_parameter(
            parameter_views(old(parameters)@),
            positional_parameter(name@, opt_text(description)),
        ),
{
    if !knows(parameters, name.as_str()) {
        let (deduced, _) = deduce_type(None, as_text(&description), true);
        let param_type = match deduced {
            ScriptParamType::Bool => ScriptParamType::String,
            other => other,
        };
        let default_value = extract_default(as_text(&description));
        let ghost before = parameter_views(parameters@);
        let parameter = ScriptParameter {
            name,
            param_type,
            short_flag: None,
            long_flag: None,
            description,
            default_value,
            required: true,
            enum_values: Vec::new(),
            nargs: None,
        };
        assert(parameter_view(parameter).enum_values =~= Seq::<Seq<char>>::empty());
        parameters.push(parameter);
        assert(parameter_views(parameters@) =~= before.push(parameter_view(parameter)));
    }
}

/// Reads the parameters off the lines of a help text, given what the
/// patterns find in each line.
pub fn parse_shapes(shapes: &Vec<LineShape>) -> (parameters: Vec<ScriptParameter>)
    ensures
        parameter_views(parameters@) == parsed(shape_views(shapes@)),
{
    let ghost views = shape_views(shapes@);
    let mut parameters: Vec<ScriptParameter> = Vec::new();
    let mut in_positional = false;
    let mut i: usize = 0;
    assert(parameter_views(parameters@) =~= Seq::<ParameterView>::empty());
    while i < shapes.len()
        invariant
            i <= shapes@.len(),
            views == shape_views(shapes@),
            parsed_from(
                views,
                ParserState {
                    index: i as int,
                    in_positional,
                    parameters: parameter_views(parameters@),
                },
            ) == parsed(views),
        decreases shapes@.len() - i,
    {
        let ghost state = ParserState {
            index: i as int,
            in_positional,
            parameters: parameter_views(parameters@),
        };
        proof {
            lemma_after_line_advances(views, state);
        }
        let shape = &shapes[i];
        assert(views[i as int] == shape@);
        if shape.is_header {
            let lower = to_lowercase(trim(shape.text.as_str()).as_str());
            in_positional = starts_with(lower.as_str(), "positional argument");
            i += 1;
        } else if trim(shape.text.as_str()).as_str().is_empty() {
            i += 1;
        } else if shape.short_option.is_some() {
            let groups = match &shape.short_option {
                Some(groups) => groups,
                None => {
                    proof {
                        assert(false);
                    }
                    vstd::pervasive::unreached()
                },
            };
            let (description, next) = describe(trimmed_group(groups, 4), shapes, i + 1);
            add_option(
                &mut parameters,
                group_at(groups, 1),
                group_at(groups, 2),
                group_at(groups, 3),
                description,
            );
            in_positional = false;
            i = next;
        } else if shape.long_option.is_some() {
            let groups = match &shape.long_option {
                Some(groups) => groups,
                None => {
                    proof {
                        assert(false);
                    }
                    vstd::pervasive::unreached()
                },
            };
            let (description, next) = describe(trimmed_group(groups, 3), shapes, i + 1);
            add_option(&mut parameters, None, group_at(groups, 1), group_at(groups, 2), description);
            in_positional = false;
            i = next;
        } else {
            let name = if in_positional {
                match &shape.positional {
                    Some(groups) => match group_at(groups, 1) {
                        Some(name) => Some((name, trimmed_group(groups, 2))),
                        None => None,
                    },
                    None => None,
                }
            } else {
                None
            };
            match name {
                Some((name, first)) => {
                    let (description, next) = describe(first, shapes, i + 1);
                    add_positional(&mut parameters, name, description);
                    i = next;
                },
                None => {
                    i += 1;
                },
            }
        }
    }
    parameters
}

/// What the patterns find in each line of `lines`.
pub open spec fn shapes_of(lines: Seq<Seq<char>>) -> Seq<ShapeView> {
    lines.map_values(|line: Seq<char>| shape_of(line))
}

/// The parameters that a help text defines; none where a pattern of the
/// parser does not compile.
pub open spec fn help_parameters(help_text: Seq<char>) -> Seq<ParameterView> {
    if patterns_accepted() {
        parsed(shapes_of(lines_of(help_text)))
    } else {
        seq![]
    }
}

/// Parses the output of a command's help flag into the parameters of the
/// command. It understands option lines in the style of GNU tools and of
/// Python's argparse, with short and long flags, value placeholders and
/// descriptions that go on over several lines, and the section of
/// positional arguments.
pub fn parse_help_output(help_text: &str) -> (parameters: Vec<ScriptParameter>)
    ensures
        parameter_views(parameters@) == help_parameters(help_text@),
{
    let hint = r"[A-Z][A-Z0-9_.*-]*(?:[ \t]+(?:\.\.\.|[A-Z][A-Z0-9_.*-]*(?:[ \t]+\.\.\.)?|\[[^\]\n]+\]))*|<[^>\n]+>|\[[^\]\n]+\]";
    let mut short_source = concat(
        r"^[ \t]{1,8}(-[a-zA-Z0-9])(?:[ \t]*,?[ \t]*(--[\w][\w-]*))?(?:[ \t]+(?:=[ \t]*)?(",
        hint,
    );
    short_source.append(r"))?(?:[ \t]{2,}(.+))?$");
    let mut long_source = concat(r"^[ \t]{2,}(--[\w][\w-]*)(?:[ \t]+(?:=[ \t]*)?(", hint);
    long_source.append(r"))?(?:[ \t]{2,}(.+))?$");
    let none: Vec<ScriptParameter> = Vec::new();
    assert(parameter_views(none@) =~= Seq::<ParameterView>::empty());
    let short_option = match compile(short_source.as_str()) {
        Some(p) => p,
        None => {
            return none;
        },
    };
    let long_option = match compile(long_source.as_str()) {
        Some(p) => p,
        None => {
            return none;
        },
    };
    let continuation = match compile(r"^[ \t]{10,}(\S.*)$") {
        Some(p) => p,
        None => {
            return none;
        },
    };
    let header = match compile(r"^[a-zA-Z][\w\s]*:\s*$") {
        Some(p) => p,
        None => {
            return none;
        },
    };
    let positional = match compile(r"^[ \t]{2,8}([a-zA-Z][a-zA-Z0-9_-]*)(?:[ \t]{2,}(.+))?$") {
        Some(p) => p,
        None => {
            return none;
        },
    };
    let lines = split_lines(help_text);
    let ghost texts = lines_of(help_text@);
    let mut shapes: Vec<LineShape> = Vec::new();
    let mut i: usize = 0;
    while i < lines.len()
        invariant
            i <= lines@.len(),
            lines_text(lines@) == texts,
            short_option.source() == short_option_pattern(),
            long_option.source() == long_option_pattern(),
            continuation.source() == continuation_pattern(),
            header.source() == section_header_pattern(),
            positional.source() == positional_pattern(),
            shapes@.len() == i,
            forall|k: int| 0 <= k < i ==> (#[trigger] shapes@[k])@ == shape_of(texts[k]),
        decreases lines@.len() - i,
    {
        let line = lines[i].as_str();
        assert(texts[i as int] == lines@[i as int]@);
        shapes.push(
            LineShape {
                text: line.to_owned(),
                is_header: is_match(&header, line),
                short_option: captures(&short_option, line),
                long_option: captures(&long_option, line),
                positional: captures(&positional, line),
                continuation: captures(&continuation, line),
            },
        );
        i += 1;
    }
    assert(shape_views(shapes@) =~= shapes_of(texts));
    parse_shapes(&shapes)
}

/// The flags that ask a command for its help text, in the order in which
/// they are tried.
pub fn help_flags() -> (flags: Vec<String>)
    ensures
        lines_text(flags@) == seq!["--help"@, "-h"@],
{
    let mut flags: Vec<String> = Vec::new();
    flags.push("--help".to_owned());
    flags.push("-h".to_owned());
    assert(lines_text(flags@) =~= seq!["--help"@, "-h"@]);
    flags
}

/// The program and the arguments that ask `command` for its help text with
/// `flag`: the first word of the command, and its other words with the flag
/// after them. Fails with `Empty command` exactly when the command has no
/// word.
pub fn help_invocation(command: &str, flag: &str) -> (invocation: Result<(String, Vec<String>), String>)
    ensures
        invocation is Err <==> words(command@).len() == 0,
        invocation is Err ==> invocation->Err_0@ == "Empty command"@,
        invocation is Ok ==> {
            &&& invocation->Ok_0.0@ == words(command@)[0]
            &&& lines_text(invocation->Ok_0.1@) == words(command@).skip(1).push(flag@)
        },
{
    let mut parts = split_whitespace(command);
    if parts.len() == 0 {
        return Err("Empty command".to_owned());
    }
    let program = parts.remove(0);
    let ghost rest = lines_text(parts@);
    assert(rest =~= words(command@).skip(1));
    parts.push(flag.to_owned());
    assert(lines_text(parts@) =~= rest.push(flag@));
    Ok((program, parts))
}

/// The length of a text in bytes, as UTF-8, as `str::len` gives it.
pub open spec fn byte_len(text: Seq<char>) -> usize {
    vstd::utf8::encode_utf8(text).len() as usize
}

/// Which of the two outputs of a command is its help text: standard output
/// where it is the longer one in bytes, else standard error unless it is
/// empty, else standard output.
pub open spec fn chosen_output(stdout: Seq<char>, stderr: Seq<char>) -> Seq<char> {
    if byte_len(stdout) > byte_len(stderr) {
        stdout
    } else if stderr.len() > 0 {
        stderr
    } else {
        stdout
    }
}

/// Picks the help text out of what a command wrote. Many programs write
/// their help to standard error, or end with a failure status after writing
/// it, so the status is of no interest. Fails with `No help output received`
/// exactly when the chosen output is empty after trimming.
pub fn select_help_output(stdout: &str, stderr: &str) -> (output: Result<String, String>)
    ensures
        output is Err <==> trim_text(chosen_output(stdout@, stderr@)).len() == 0,
        output is Err ==> output->Err_0@ == "No help output received"@,
        output is Ok ==> output->Ok_0@ == chosen_output(stdout@, stderr@),
{
    let combined = if stdout.len() > stderr.len() {
        stdout
    } else if !stderr.is_empty() {
        stderr
    } else {
        stdout
    };
    if trim(combined).as_str().is_empty() {
        Err("No help output received".to_owned())
    } else {
        Ok(combined.to_owned())
    }
}

/// Detects the parameters of a command from the outcome of asking it for
/// its help text: the text, or why it could not be had. The caller asks
/// with each of `help_flags` in turn, through `help_invocation` and
/// `select_help_output`, until one attempt yields a text.
pub fn detect_parameters(help_output: Result<String, String>) -> (detected: Result<
    Vec<ScriptParameter>,
    String,
>)
    ensures
        detected is Ok <==> help_output is Ok,
        detected is Ok ==> parameter_views(detected->Ok_0@) == help_parameters(help_output->Ok_0@),
        detected is Err ==> detected->Err_0@ == "Failed to run help command: "@
            + help_output->Err_0@,
{
    match help_output {
        Ok(text) => Ok(parse_help_output(text.as_str())),
        Err(reason) => Err(concat("Failed to run help command: ", reason.as_str())),
    }
}

} // verus!
