use cortx_core::command_builder::{build_command, find_value, strip_matching_quotes};
use cortx_core::models::{GlobalScript, ScriptParamType, ScriptParameter};

fn make_script(command: &str, script_path: Option<&str>, params: Vec<ScriptParameter>) -> GlobalScript {
    GlobalScript {
        id: "test".to_string(),
        name: "test".to_string(),
        description: None,
        command: command.to_string(),
        script_path: script_path.map(|s| s.to_string()),
        working_dir: None,
        color: None,
        folder_id: None,
        tags: vec![],
        parameters: params,
        parameter_presets: vec![],
        default_preset_id: None,
        env_vars: None,
        created_at: 0,
        updated_at: 0,
        order: 0,
        auto_discovered: false,
    }
}

fn make_param(
    name: &str,
    param_type: ScriptParamType,
    long_flag: Option<&str>,
    short_flag: Option<&str>,
    nargs: Option<&str>,
) -> ScriptParameter {
    ScriptParameter {
        name: name.to_string(),
        param_type,
        long_flag: long_flag.map(|s| s.to_string()),
        short_flag: short_flag.map(|s| s.to_string()),
        description: None,
        default_value: None,
        required: false,
        enum_values: vec![],
        nargs: nargs.map(|s| s.to_string()),
    }
}

fn values(pairs: &[(&str, &str)]) -> Vec<(String, String)> {
    pairs.iter().map(|(k, v)| (k.to_string(), v.to_string())).collect()
}

#[test]
fn template_substitution() {
    let script = make_script("python {{SCRIPT_FILE}}", Some("/path/to/script.py"), vec![]);
    let result = build_command(&script, &Vec::new(), &[]);
    assert_eq!(result, Some(("python".to_string(), vec!["/path/to/script.py".to_string()])));
}

#[test]
fn no_template_no_script_path() {
    let script = make_script("echo hello world", None, vec![]);
    let result = build_command(&script, &Vec::new(), &[]);
    assert_eq!(result, Some(("echo".to_string(), vec!["hello".to_string(), "world".to_string()])));
}

#[test]
fn bool_param_true() {
    let params = vec![make_param("verbose", ScriptParamType::Bool, Some("--verbose"), None, None)];
    let script = make_script("myapp", None, params);
    let result = build_command(&script, &values(&[("verbose", "true")]), &[]);
    assert_eq!(result, Some(("myapp".to_string(), vec!["--verbose".to_string()])));
}

#[test]
fn bool_param_false() {
    let params = vec![make_param("verbose", ScriptParamType::Bool, Some("--verbose"), None, None)];
    let script = make_script("myapp", None, params);
    let result = build_command(&script, &values(&[("verbose", "false")]), &[]);
    assert_eq!(result, Some(("myapp".to_string(), vec![])));
}

#[test]
fn bool_param_short_flag() {
    let params = vec![make_param("verbose", ScriptParamType::Bool, None, Some("-v"), None)];
    let script = make_script("myapp", None, params);
    let result = build_command(&script, &values(&[("verbose", "true")]), &[]);
    assert_eq!(result, Some(("myapp".to_string(), vec!["-v".to_string()])));
}

#[test]
fn nargs_splits_whitespace() {
    let params = vec![make_param("files", ScriptParamType::String, Some("--files"), None, Some("+"))];
    let script = make_script("myapp", None, params);
    let result = build_command(&script, &values(&[("files", "a.txt b.txt c.txt")]), &[]);
    assert_eq!(
        result,
        Some((
            "myapp".to_string(),
            vec!["--files".to_string(), "a.txt".to_string(), "b.txt".to_string(), "c.txt".to_string()]
        ))
    );
}

#[test]
fn quote_stripping() {
    let params = vec![make_param("msg", ScriptParamType::String, Some("--msg"), None, None)];
    let script = make_script("myapp", None, params);

    let result = build_command(&script, &values(&[("msg", "\"hello world\"")]), &[]);
    assert_eq!(result, Some(("myapp".to_string(), vec!["--msg".to_string(), "hello world".to_string()])));

    let result = build_command(&script, &values(&[("msg", "'hello world'")]), &[]);
    assert_eq!(result, Some(("myapp".to_string(), vec!["--msg".to_string(), "hello world".to_string()])));
}

#[test]
fn extra_args_appended() {
    let script = make_script("myapp", None, vec![]);
    let extra = vec!["--flag".to_string(), "value".to_string()];
    let result = build_command(&script, &Vec::new(), &extra);
    assert_eq!(result, Some(("myapp".to_string(), vec!["--flag".to_string(), "value".to_string()])));
}

#[test]
fn empty_command_returns_none() {
    let script = make_script("", None, vec![]);
    let result = build_command(&script, &Vec::new(), &[]);
    assert_eq!(result, None);
}

#[test]
fn empty_value_skipped() {
    let params = vec![make_param("name", ScriptParamType::String, Some("--name"), None, None)];
    let script = make_script("myapp", None, params);
    let result = build_command(&script, &values(&[("name", "")]), &[]);
    assert_eq!(result, Some(("myapp".to_string(), vec![])));
}

#[test]
fn definition_order_preserved() {
    let params = vec![
        make_param("beta", ScriptParamType::String, Some("--beta"), None, None),
        make_param("alpha", ScriptParamType::String, Some("--alpha"), None, None),
    ];
    let script = make_script("myapp", None, params);
    let result = build_command(&script, &values(&[("alpha", "1"), ("beta", "2")]), &[]);
    assert_eq!(
        result,
        Some((
            "myapp".to_string(),
            vec!["--beta".to_string(), "2".to_string(), "--alpha".to_string(), "1".to_string()]
        ))
    );
}

#[test]
fn whitespace_only_command_returns_none() {
    let script = make_script("  \t ", None, vec![]);
    assert_eq!(build_command(&script, &Vec::new(), &[]), None);
}

#[test]
fn parameter_without_flag_adds_only_its_value() {
    let params = vec![make_param("target", ScriptParamType::Path, None, None, None)];
    let script = make_script("myapp", None, params);
    let result = build_command(&script, &values(&[("target", "out")]), &[]);
    assert_eq!(result, Some(("myapp".to_string(), vec!["out".to_string()])));
}

#[test]
fn parameter_without_value_adds_nothing() {
    let params = vec![make_param("name", ScriptParamType::String, Some("--name"), None, None)];
    let script = make_script("myapp run", None, params);
    let result = build_command(&script, &values(&[("other", "x")]), &[]);
    assert_eq!(result, Some(("myapp".to_string(), vec!["run".to_string()])));
}

#[test]
fn first_value_of_a_name_wins() {
    let pairs = values(&[("a", "1"), ("a", "2"), ("b", "3")]);
    assert_eq!(find_value(&pairs, "a").map(|s| s.as_str()), Some("1"));
    assert_eq!(find_value(&pairs, "b").map(|s| s.as_str()), Some("3"));
    assert_eq!(find_value(&pairs, "c"), None);
}

#[test]
fn quotes_are_stripped_only_in_matching_pairs() {
    assert_eq!(strip_matching_quotes("'a'"), "a");
    assert_eq!(strip_matching_quotes("\"a\""), "a");
    assert_eq!(strip_matching_quotes("'a\""), "'a\"");
    assert_eq!(strip_matching_quotes("'"), "'");
    assert_eq!(strip_matching_quotes("''"), "");
    assert_eq!(strip_matching_quotes("plain"), "plain");
    assert_eq!(strip_matching_quotes(""), "");
}

#[test]
fn placeholder_is_replaced_everywhere() {
    let script = make_script("run {{SCRIPT_FILE}} --again {{SCRIPT_FILE}}", Some("a.py"), vec![]);
    let result = build_command(&script, &Vec::new(), &[]);
    assert_eq!(
        result,
        Some(("run".to_string(), vec!["a.py".to_string(), "--again".to_string(), "a.py".to_string()]))
    );
}
