//! From a global script and the values of its parameters to the program and
//! arguments to run.

use crate::models::{texts, GlobalScript, ScriptParamType, ScriptParameter};
use crate::text::{
    chars_of, replace, replace_text, same_text, slice_of, split_whitespace, text_of, words,
};
use vstd::prelude::*;

verus! {

/// The value that `values` holds for `name`: that of the first pair with
/// this name.
pub open spec fn lookup(values: Seq<(String, String)>, name: Seq<char>) -> Option<Seq<char>>
    decreases values.len(),
{
    if values.len() == 0 {
        None
    } else if values[0].0@ == name {
        Some(values[0].1@)
    } else {
        lookup(values.drop_first(), name)
    }
}

/// The value that `values` holds for `name`.
pub fn find_value<'a>(values: &'a Vec<(String, String)>, name: &str) -> (value: Option<&'a String>)
    ensures
        match value {
            Some(v) => lookup(values@, name@) == Some(v@),
            None => lookup(values@, name@) is None,
        },
{
    let mut i: usize = 0;
    assert(values@.skip(0) =~= values@);
    while i < values.len()
        invariant
            i <= values@.len(),
            lookup(values@.skip(i as int), name@) == lookup(values@, name@),
        decreases values@.len() - i,
    {
        let ghost rest = values@.skip(i as int);
        assert(rest[0] == values@[i as int]);
        assert(rest.drop_first() =~= values@.skip(i + 1));
        if same_text(values[i].0.as_str(), name) {
            return Some(&values[i].1);
        }
        i += 1;
    }
    assert(values@.skip(i as int).len() == 0);
    None
}

/// The flag of a parameter: the long one if it has one, else the short one,
/// else none.
pub open spec fn flag_of(parameter: ScriptParameter) -> Seq<Seq<char>> {
    match parameter.long_flag {
        Some(flag) => seq![flag@],
        None => match parameter.short_flag {
            Some(flag) => seq![flag@],
            None => seq![],
        },
    }
}

/// A value without the pair of quotes around it: of single quotes, or else
/// of double quotes.
pub open spec fn unquoted(value: Seq<char>) -> Seq<char> {
    if value.len() >= 2 && value[0] == '\'' && value.last() == '\'' {
        value.subrange(1, value.len() - 1)
    } else if value.len() >= 2 && value[0] == '"' && value.last() == '"' {
        value.subrange(1, value.len() - 1)
    } else {
        value
    }
}

/// The arguments that a parameter with the value `value` adds. An empty
/// value adds nothing. A boolean parameter adds its flag when the value is
/// `true`. Any other adds its flag and then the value: word by word where
/// the parameter takes several, else as one argument without its quotes.
pub open spec fn parameter_args(parameter: ScriptParameter, value: Seq<char>) -> Seq<Seq<char>> {
    if value.len() == 0 {
        seq![]
    } else if parameter.param_type == ScriptParamType::Bool {
        if value == "true"@ {
            flag_of(parameter)
        } else {
            seq![]
        }
    } else if parameter.nargs is Some {
        flag_of(parameter) + words(value)
    } else {
        flag_of(parameter) + seq![unquoted(value)]
    }
}

/// The arguments that the parameters add, in the order of their
/// definitions. A parameter without a value adds nothing.
pub open spec fn all_parameter_args(
    parameters: Seq<ScriptParameter>,
    values: Seq<(String, String)>,
) -> Seq<Seq<char>>
    decreases parameters.len(),
{
    if parameters.len() == 0 {
        seq![]
    } else {
        all_parameter_args(parameters.drop_last(), values) + (match lookup(
            values,
            parameters.last().name@,
        ) {
            Some(value) => parameter_args(parameters.last(), value),
            None => seq![],
        })
    }
}

/// The command line of a script with the path of its file written into the
/// placeholder.
pub open spec fn resolved_command(script: GlobalScript) -> Seq<char> {
    match script.script_path {
        Some(path) => replace_text(script.command@, "{{SCRIPT_FILE}}"@, path@),
        None => script.command@,
    }
}

/// A value without the pair of quotes around it.
pub fn strip_matching_quotes(value: &str) -> (clean: String)
    ensures
        clean@ == unquoted(value@),
{
    let chars = chars_of(value);
    let n = chars.len();
    if n >= 2 && ((chars[0] == '\'' && chars[n - 1] == '\'') || (chars[0] == '"' && chars[n - 1]
        == '"')) {
        text_of(&slice_of(&chars, 1, n - 1))
    } else {
        value.to_owned()
    }
}

fn push_flag(args: &mut Vec<String>, parameter: &ScriptParameter)
    ensures
        texts(final(args)@) == texts(old(args)@) + flag_of(*parameter),
{
    let ghost before = texts(args@);
    match &parameter.long_flag {
        Some(flag) => {
            args.push(flag.clone());
            assert(texts(args@) =~= before + seq![flag@]);
        },
        None => match &parameter.short_flag {
            Some(flag) => {
                args.push(flag.clone());
                assert(texts(args@) =~= before + seq![flag@]);
            },
            None => {
                assert(texts(args@) =~= before + Seq::<Seq<char>>::empty());
            },
        },
    }
}

fn push_all(args: &mut Vec<String>, more: &Vec<String>)
    ensures
        texts(final(args)@) == texts(old(args)@) + texts(more@),
{
    let ghost before = texts(args@);
    let mut k: usize = 0;
    assert(texts(args@) =~= before + texts(more@).take(0));
    while k < more.len()
        invariant
            k <= more@.len(),
            texts(args@) == before + texts(more@).take(k as int),
        decreases more@.len() - k,
    {
        let ghost shown = texts(args@);
        args.push(more[k].clone());
        assert(texts(args@) =~= shown.push(more@[k as int]@));
        assert(texts(more@).take(k + 1) =~= texts(more@).take(k as int).push(more@[k as int]@));
        assert(texts(args@) =~= before + texts(more@).take(k + 1));
        k += 1;
    }
    assert(texts(more@).take(more@.len() as int) =~= texts(more@));
}

fn push_parameter(args: &mut Vec<String>, parameter: &ScriptParameter, value: &str)
    ensures
        texts(final(args)@) == texts(old(args)@) + parameter_args(*parameter, value@),
{
    let ghost before = texts(args@);
    if value.is_empty() {
        assert(texts(args@) =~= before + Seq::<Seq<char>>::empty());
        return ;
    }
    match parameter.param_type {
        ScriptParamType::Bool => {
            if same_text(value, "true") {
                push_flag(args, parameter);
            } else {
                assert(texts(args@) =~= before + Seq::<Seq<char>>::empty());
            }
        },
        _ => {
            push_flag(args, parameter);
            let ghost flagged = texts(args@);
            if parameter.nargs.is_some() {
                let parts = split_whitespace(value);
                push_all(args, &parts);
                assert(texts(parts@) =~= words(value@));
                assert(texts(args@) =~= before + (flag_of(*parameter) + words(value@)));
            } else {
                args.push(strip_matching_quotes(value));
                assert(texts(args@) =~= flagged + seq![unquoted(value@)]);
                assert(texts(args@) =~= before + (flag_of(*parameter) + seq![unquoted(value@)]));
            }
        },
    }
}

/// Builds the program and its arguments from a global script, the values
/// of its parameters and extra arguments.
///
/// The script's command line, with the path of its file in the place of the
/// placeholder, is split into words: the first is the program, the others
/// are its first arguments. Then come the arguments of the parameters, in
/// the order of their definitions, then the extra arguments. Returns `None`
/// exactly when the command line has no word.
pub fn build_command(
    script: &GlobalScript,
    param_values: &Vec<(String, String)>,
    extra_args: &[String],
) -> (built: Option<(String, Vec<String>)>)
    ensures
        built is None <==> words(resolved_command(*script)).len() == 0,
        built is Some ==> {
            let tokens = words(resolved_command(*script));
            &&& built->Some_0.0@ == tokens[0]
            &&& texts(built->Some_0.1@) == tokens.skip(1) + all_parameter_args(
                script.parameters@,
                param_values@,
            ) + texts(extra_args@)
        },
{
    let base_command = match &script.script_path {
        Some(path) => replace(script.command.as_str(), "{{SCRIPT_FILE}}", path.as_str()),
        None => script.command.clone(),
    };
    let mut tokens = split_whitespace(base_command.as_str());
    let ghost all = words(resolved_command(*script));
    assert(texts(tokens@) =~= all);
    if tokens.len() == 0 {
        return None;
    }
    let program = tokens.remove(0);
    let mut args = tokens;
    assert(texts(args@) =~= all.skip(1));
    let mut i: usize = 0;
    assert(script.parameters@.take(0) =~= Seq::<ScriptParameter>::empty());
    assert(texts(args@) =~= all.skip(1) + all_parameter_args(
        script.parameters@.take(0),
        param_values@,
    ));
    while i < script.parameters.len()
        invariant
            i <= script.parameters@.len(),
            texts(args@) == all.skip(1) + all_parameter_args(
                script.parameters@.take(i as int),
                param_values@,
            ),
        decreases script.parameters@.len() - i,
    {
        let parameter = &script.parameters[i];
        let ghost before = texts(args@);
        let ghost upto = script.parameters@.take(i + 1);
        assert(upto.drop_last() =~= script.parameters@.take(i as int));
        assert(upto.last() == *parameter);
        match find_value(param_values, parameter.name.as_str()) {
            Some(value) => {
                push_parameter(&mut args, parameter, value.as_str());
                assert(texts(args@) =~= all.skip(1) + all_parameter_args(upto, param_values@));
            },
            None => {
                assert(texts(args@) =~= all.skip(1) + all_parameter_args(upto, param_values@));
            },
        }
        i += 1;
    }
    assert(script.parameters@.take(i as int) =~= script.parameters@);
    let ghost with_parameters = texts(args@);
    let mut k: usize = 0;
    assert(texts(args@) =~= with_parameters + texts(extra_args@).take(0));
    while k < extra_args.len()
        invariant
            k <= extra_args@.len(),
            texts(args@) == with_parameters + texts(extra_args@).take(k as int),
        decreases extra_args@.len() - k,
    {
        let ghost shown = texts(args@);
        args.push(extra_args[k].clone());
        assert(texts(args@) =~= shown.push(extra_args@[k as int]@));
        assert(texts(extra_args@).take(k + 1) =~= texts(extra_args@).take(k as int).push(
            extra_args@[k as int]@,
        ));
        assert(texts(args@) =~= with_parameters + texts(extra_args@).take(k + 1));
        k += 1;
    }
    assert(texts(extra_args@).take(extra_args@.len() as int) =~= texts(extra_args@));
    Some((program, args))
}

} // verus!
