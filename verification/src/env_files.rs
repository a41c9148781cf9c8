//! Environment files: which files are environment files, what they hold,
//! and how two of them compare.

use crate::models::{EnvComparison, EnvFile, EnvFileVariant, EnvVariable};
use crate::registry::{distinct_names, has_name};
use crate::text::{
    chars_of, contains, find_char, lines_of, lowercase_text, same_text, slice_of, spec_contains,
    spec_starts_with, split_lines, starts_with, text_of, to_lowercase, trim_bounds, trim_text,
};
use vstd::prelude::*;

verus! {

/// Whether a lowercase file name is that of an environment file: `.env`
/// itself, or a name that begins with `.env.`.
pub open spec fn spec_is_env_name(lower: Seq<char>) -> bool {
    lower == ".env"@ || spec_starts_with(lower, ".env."@)
}

/// Whether a lowercase file name is that of an environment file.
pub fn is_env_name(lower: &str) -> (is: bool)
    ensures
        is == spec_is_env_name(lower@),
{
    same_text(lower, ".env") || starts_with(lower, ".env.")
}

/// Whether a file name is that of an environment file, whatever its case.
pub fn is_env_file(filename: &str) -> (is: bool)
    ensures
        is == spec_is_env_name(lowercase_text(filename@)),
{
    let lower = to_lowercase(filename);
    is_env_name(lower.as_str())
}

/// The variant that a lowercase file name stands for. The first of these
/// decides: the name `.env` is the base file and `.env.local` the local
/// one; then a name that holds `development` or `.dev`, `production` or
/// `.prod`, `test`, `staging`, `example` or `sample` is of that variant; any
/// other name is `Other`.
pub open spec fn spec_variant_of_name(lower: Seq<char>) -> EnvFileVariant {
    if lower == ".env"@ {
        EnvFileVariant::Base
    } else if lower == ".env.local"@ {
        EnvFileVariant::Local
    } else if spec_contains(lower, "development"@) || spec_contains(lower, ".dev"@) {
        EnvFileVariant::Development
    } else if spec_contains(lower, "production"@) || spec_contains(lower, ".prod"@) {
        EnvFileVariant::Production
    } else if spec_contains(lower, "test"@) {
        EnvFileVariant::Test
    } else if spec_contains(lower, "staging"@) {
        EnvFileVariant::Staging
    } else if spec_contains(lower, "example"@) || spec_contains(lower, "sample"@) {
        EnvFileVariant::Example
    } else {
        EnvFileVariant::Other
    }
}

/// The variant that a lowercase file name stands for.
pub fn variant_of_name(lower: &str) -> (variant: EnvFileVariant)
    ensures
        variant == spec_variant_of_name(lower@),
{
    if same_text(lower, ".env") {
        EnvFileVariant::Base
    } else if same_text(lower, ".env.local") {
        EnvFileVariant::Local
    } else if contains(lower, "development") || contains(lower, ".dev") {
        EnvFileVariant::Development
    } else if contains(lower, "production") || contains(lower, ".prod") {
        EnvFileVariant::Production
    } else if contains(lower, "test") {
        EnvFileVariant::Test
    } else if contains(lower, "staging") {
        EnvFileVariant::Staging
    } else if contains(lower, "example") || contains(lower, "sample") {
        EnvFileVariant::Example
    } else {
        EnvFileVariant::Other
    }
}

/// The variant of the environment file named `filename`, whatever its case.
pub fn detect_variant(filename: &str) -> (variant: EnvFileVariant)
    ensures
        variant == spec_variant_of_name(lowercase_text(filename@)),
{
    let lower = to_lowercase(filename);
    variant_of_name(lower.as_str())
}

/// A trimmed value without the quotes around it: where it begins and ends
/// with a double quote, or begins and ends with a single quote, and is more
/// than the quote alone.
pub open spec fn unquoted_value(trimmed: Seq<char>) -> Seq<char> {
    if trimmed.len() >= 2 && ((trimmed[0] == '"' && trimmed.last() == '"') || (trimmed[0] == '\''
        && trimmed.last() == '\'')) {
        trimmed.subrange(1, trimmed.len() - 1)
    } else {
        trimmed
    }
}

fn strip_quotes_chars(chars: &Vec<char>) -> (clean: Vec<char>)
    ensures
        clean@ == unquoted_value(trim_text(chars@)),
{
    let (start, end) = trim_bounds(chars);
    let ghost trimmed = chars@.subrange(start as int, end as int);
    if end - start >= 2 && ((chars[start] == '"' && chars[end - 1] == '"') || (chars[start] == '\''
        && chars[end - 1] == '\'')) {
        assert(trimmed[0] == chars@[start as int]);
        assert(trimmed.last() == chars@[end - 1]);
        assert(trimmed.subrange(1, trimmed.len() - 1) =~= chars@.subrange(start + 1, end - 1));
        slice_of(chars, start + 1, end - 1)
    } else {
        proof {
            if trimmed.len() >= 2 {
                assert(trimmed[0] == chars@[start as int]);
                assert(trimmed.last() == chars@[end - 1]);
            }
        }
        slice_of(chars, start, end)
    }
}

/// Strips the white space around a value and then the quotes around it.
pub fn strip_quotes(s: &str) -> (clean: String)
    ensures
        clean@ == unquoted_value(trim_text(s@)),
{
    text_of(&strip_quotes_chars(&chars_of(s)))
}

/// The position of the first `=` in `line`, if there is one.
pub open spec fn equals_at(line: Seq<char>) -> Option<int> {
    if exists|at: int| 0 <= at < line.len() && line[at] == '=' {
        Some(
            choose|at: int|
                0 <= at < line.len() && line[at] == '=' && forall|k: int|
                    0 <= k < at ==> line[k] != '=',
        )
    } else {
        None
    }
}

/// The key and the value that a line of an environment file defines, if it
/// defines one. A line that is empty after trimming, or that begins with
/// `#`, defines nothing, and neither does one without `=` or with nothing
/// before it. The key is what stands before the first `=`, trimmed; the
/// value is what stands after it, trimmed and without quotes around it.
pub open spec fn line_definition(line: Seq<char>) -> Option<(Seq<char>, Seq<char>)> {
    let trimmed = trim_text(line);
    if trimmed.len() == 0 || trimmed[0] == '#' {
        None
    } else {
        match equals_at(trimmed) {
            None => None,
            Some(at) => {
                let key = trim_text(trimmed.subrange(0, at));
                let value = unquoted_value(
                    trim_text(trim_text(trimmed.subrange(at + 1, trimmed.len() as int))),
                );
                if key.len() == 0 {
                    None
                } else {
                    Some((key, value))
                }
            },
        }
    }
}

/// The number of a line as it is recorded: counted from one, and wrapping
/// around where it does not fit.
pub open spec fn line_number(index: int) -> u32 {
    ((index + 1) % 0x1_0000_0000) as u32
}

/// A variable as a mathematical value: key, value and line number.
pub open spec fn variable_view(v: EnvVariable) -> (Seq<char>, Seq<char>, u32) {
    (v.key@, v.value@, v.line_number)
}

/// The variables of a list, as mathematical values.
pub open spec fn variable_views(list: Seq<EnvVariable>) -> Seq<(Seq<char>, Seq<char>, u32)> {
    list.map_values(|v: EnvVariable| variable_view(v))
}

/// The variables that the first `upto` of `lines` define, in order, each
/// with the number of its line.
pub open spec fn variables_of(lines: Seq<Seq<char>>, upto: int) -> Seq<(Seq<char>, Seq<char>, u32)>
    decreases upto,
{
    if upto <= 0 {
        seq![]
    } else {
        variables_of(lines, upto - 1) + (match line_definition(lines[upto - 1]) {
            Some((key, value)) => seq![(key, value, line_number(upto - 1))],
            None => seq![],
        })
    }
}

fn parse_line(line: &str) -> (definition: Option<(String, String)>)
    ensures
        match definition {
            Some((key, value)) => line_definition(line@) == Some((key@, value@)),
            None => line_definition(line@) is None,
        },
{
    let chars = chars_of(line);
    let (start, end) = trim_bounds(&chars);
    let trimmed = slice_of(&chars, start, end);
    if trimmed.len() == 0 || trimmed[0] == '#' {
        return None;
    }
    match find_char(&trimmed, '=') {
        None => {
            None
        },
        Some(at) => {
            assert(equals_at(trimmed@) == Some(at as int));
            let before = slice_of(&trimmed, 0, at);
            let after = slice_of(&trimmed, at + 1, trimmed.len());
            let (key_start, key_end) = trim_bounds(&before);
            let key = slice_of(&before, key_start, key_end);
            let (value_start, value_end) = trim_bounds(&after);
            let value = strip_quotes_chars(&slice_of(&after, value_start, value_end));
            if key.len() == 0 {
                None
            } else {
                Some((text_of(&key), text_of(&value)))
            }
        },
    }
}

/// Reads the content of an environment file: the variables that its lines
/// define, in order, each with the number of its line.
pub fn parse_env_content(content: &str) -> (variables: Vec<EnvVariable>)
    ensures
        variable_views(variables@) == variables_of(
            lines_of(content@),
            lines_of(content@).len() as int,
        ),
{
    let lines = split_lines(content);
    let ghost texts = lines_of(content@);
    let mut variables: Vec<EnvVariable> = Vec::new();
    let mut i: usize = 0;
    assert(variable_views(variables@) =~= variables_of(texts, 0));
    while i < lines.len()
        invariant
            i <= lines@.len(),
            crate::text::lines_text(lines@) == texts,
            variable_views(variables@) == variables_of(texts, i as int),
        decreases lines@.len() - i,
    {
        let ghost shown = variable_views(variables@);
        assert(texts[i as int] == lines@[i as int]@);
        match parse_line(lines[i].as_str()) {
            Some((key, value)) => {
                let number = ((i as u64 + 1) % 0x1_0000_0000) as u32;
                variables.push(EnvVariable { key, value, line_number: number });
                assert(variable_views(variables@) =~= shown + seq![
                    (key@, value@, line_number(i as int)),
                ]);
            },
            None => {
                assert(shown + Seq::<(Seq<char>, Seq<char>, u32)>::empty() =~= shown);
            },
        }
        i += 1;
    }
    variables
}

/// Whether a variable of `variables` has the key `key`.
pub open spec fn has_key(variables: Seq<EnvVariable>, key: Seq<char>) -> bool {
    exists|i: int| 0 <= i < variables.len() && #[trigger] variables[i].key@ == key
}

fn holds_key(variables: &Vec<EnvVariable>, key: &String) -> (found: bool)
    ensures
        found == has_key(variables@, key@),
{
    let mut i: usize = 0;
    while i < variables.len()
        invariant
            i <= variables@.len(),
            forall|k: int| 0 <= k < i ==> variables@[k].key@ != key@,
        decreases variables@.len() - i,
    {
        if variables[i].key == *key {
            return true;
        }
        i += 1;
    }
    false
}

fn holds_name(names: &Vec<String>, key: &String) -> (found: bool)
    ensures
        found == has_name(names@, key@),
{
    let mut i: usize = 0;
    while i < names.len()
        invariant
            i <= names@.len(),
            forall|k: int| 0 <= k < i ==> names@[k]@ != key@,
        decreases names@.len() - i,
    {
        if names[i] == *key {
            return true;
        }
        i += 1;
    }
    false
}

/// The keys of `source`, each once and in the order of their first
/// occurrence, that `other` holds too (`shared`) or does not hold (not
/// `shared`).
pub fn select_keys(source: &Vec<EnvVariable>, other: &Vec<EnvVariable>, shared: bool) -> (keys: Vec<
    String,
>)
    ensures
        distinct_names(keys@),
        forall|key: Seq<char>|
            has_name(keys@, key) <==> has_key(source@, key) && has_key(other@, key) == shared,
{
    let mut keys: Vec<String> = Vec::new();
    let mut i: usize = 0;
    while i < source.len()
        invariant
            i <= source@.len(),
            distinct_names(keys@),
            forall|key: Seq<char>|
                has_name(keys@, key) <==> has_key(source@.take(i as int), key) && has_key(
                    other@,
                    key,
                ) == shared,
        decreases source@.len() - i,
    {
        let key = &source[i].key;
        let ghost before = keys@;
        let ghost seen = source@.take(i as int);
        let ghost now = source@.take(i + 1);
        assert(forall|k: int| 0 <= k < i ==> now[k] == seen[k]);
        assert(now[i as int] == source@[i as int]);
        let wanted = holds_key(other, key) == shared && !holds_name(&keys, key);
        if wanted {
            keys.push(key.clone());
            assert(forall|k: int| 0 <= k < before.len() ==> keys@[k] == before[k]);
            assert(keys@[before.len() as int]@ == key@);
        }
        proof {
            assert forall|name: Seq<char>|
                has_name(keys@, name) <==> has_key(now, name) && has_key(other@, name)
                    == shared by {
                if has_name(keys@, name) {
                    let k = choose|k: int| 0 <= k < keys@.len() && #[trigger] keys@[k]@ == name;
                    if k < before.len() {
                        assert(before[k]@ == name);
                        assert(has_name(before, name));
                        let j = choose|j: int| 0 <= j < seen.len() && #[trigger] seen[j].key@ == name;
                        assert(now[j].key@ == name);
                    } else {
                        assert(now[i as int].key@ == name);
                    }
                }
                if has_key(now, name) && has_key(other@, name) == shared {
                    let j = choose|j: int| 0 <= j < now.len() && #[trigger] now[j].key@ == name;
                    if j < i {
                        assert(seen[j].key@ == name);
                        assert(has_name(before, name));
                        let k = choose|k: int|
                            0 <= k < before.len() && #[trigger] before[k]@ == name;
                        assert(keys@[k]@ == name);
                    } else {
                        if wanted {
                            assert(keys@[before.len() as int]@ == name);
                        } else {
                            assert(has_name(before, name));
                            let k = choose|k: int|
                                0 <= k < before.len() && #[trigger] before[k]@ == name;
                            assert(keys@[k]@ == name);
                        }
                    }
                }
            }
        }
        i += 1;
    }
    assert(source@.take(i as int) =~= source@);
    keys
}

/// Compares a base file with an example file by their keys: which keys of
/// the example the base lacks, which keys of the base the example lacks,
/// and which both hold. Each list holds a key once.
pub fn compare_env_files(base_file: &EnvFile, example_file: &EnvFile) -> (comparison: EnvComparison)
    ensures
        comparison.base_file_id@ == base_file.id@,
        comparison.example_file_id@ == example_file.id@,
        distinct_names(comparison.missing_in_base@),
        distinct_names(comparison.extra_in_base@),
        distinct_names(comparison.common_keys@),
        forall|key: Seq<char>|
            has_name(comparison.missing_in_base@, key) <==> has_key(example_file.variables@, key)
                && !has_key(base_file.variables@, key),
        forall|key: Seq<char>|
            has_name(comparison.extra_in_base@, key) <==> has_key(base_file.variables@, key)
                && !has_key(example_file.variables@, key),
        forall|key: Seq<char>|
            has_name(comparison.common_keys@, key) <==> has_key(base_file.variables@, key)
                && has_key(example_file.variables@, key),
{
    EnvComparison {
        base_file_id: base_file.id.clone(),
        example_file_id: example_file.id.clone(),
        missing_in_base: select_keys(&example_file.variables, &base_file.variables, false),
        extra_in_base: select_keys(&base_file.variables, &example_file.variables, false),
        common_keys: select_keys(&base_file.variables, &example_file.variables, true),
    }
}

/// Whether a file of `files` has the path `path`.
pub open spec fn has_path(files: Seq<EnvFile>, path: Seq<char>) -> bool {
    exists|i: int| 0 <= i < files.len() && (#[trigger] files[i]).path@ == path
}

/// `files` with those of the first `upto` of `known` after it that were
/// added by hand and whose path is not in the list yet.
pub open spec fn with_manual(files: Seq<EnvFile>, known: Seq<EnvFile>, upto: int) -> Seq<EnvFile>
    decreases upto,
{
    if upto <= 0 {
        files
    } else {
        let before = with_manual(files, known, upto - 1);
        let file = known[upto - 1];
        if file.is_manually_added && !has_path(before, file.path@) {
            before.push(file)
        } else {
            before
        }
    }
}

fn holds_path(files: &Vec<EnvFile>, path: &String) -> (found: bool)
    ensures
        found == has_path(files@, path@),
{
    let mut i: usize = 0;
    while i < files.len()
        invariant
            i <= files@.len(),
            forall|k: int| 0 <= k < i ==> (#[trigger] files@[k]).path@ != path@,
        decreases files@.len() - i,
    {
        if files[i].path == *path {
            return true;
        }
        i += 1;
    }
    false
}

/// The environment files of a project after a discovery: the files that
/// were discovered, in order. Where the discovery was forced, the files
/// that the user had added by hand are kept after them, unless a file of
/// the same path is in the list already.
pub fn merge_discovered(discovered: Vec<EnvFile>, known: Vec<EnvFile>, force: bool) -> (files: Vec<
    EnvFile,
>)
    ensures
        files@ == (if force {
            with_manual(discovered@, known@, known@.len() as int)
        } else {
            discovered@
        }),
{
    let mut files = discovered;
    if !force {
        return files;
    }
    let ghost whole = known@;
    let mut known = known;
    let mut done: Ghost<int> = Ghost(0);
    while known.len() > 0
        invariant
            0 <= done@ <= whole.len(),
            known@ == whole.skip(done@),
            files@ == with_manual(discovered@, whole, done@),
        decreases known@.len(),
    {
        let file = known.remove(0);
        assert(file == whole[done@]);
        assert(known@ =~= whole.skip(done@ + 1));
        if file.is_manually_added && !holds_path(&files, &file.path) {
            files.push(file);
        }
        proof {
            done@ = done@ + 1;
        }
    }
    assert(whole.skip(done@).len() == 0);
    files
}

/// Takes in what an environment file holds now. A file that was read gets
/// its variables and the time of the reading; a file that is gone keeps its
/// place with no variables.
pub fn refresh_env_file(file: &mut EnvFile, read: Option<Vec<EnvVariable>>, now: i64)
    ensures
        *final(file) == (match read {
            Some(variables) => EnvFile { variables, last_read_at: now, ..*old(file) },
            None => EnvFile { variables: final(file).variables, ..*old(file) },
        }),
        read is None ==> final(file).variables@.len() == 0,
{
    match read {
        Some(variables) => {
            file.variables = variables;
            file.last_read_at = now;
        },
        None => {
            file.variables = Vec::new();
        },
    }
}

} // verus!
