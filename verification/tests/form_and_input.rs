use cortx_core::form::{ParamFormState, SavedRunState};
use cortx_core::input::{handle_param_form, FormOutcome, Key};
use cortx_core::models::{GlobalScript, ParameterPreset, ScriptParamType, ScriptParameter};

fn param(name: &str, kind: ScriptParamType, long: Option<&str>, default: Option<&str>, required: bool) -> ScriptParameter {
    ScriptParameter {
        name: name.to_string(),
        param_type: kind,
        short_flag: None,
        long_flag: long.map(|s| s.to_string()),
        description: None,
        default_value: default.map(|s| s.to_string()),
        required,
        enum_values: vec![],
        nargs: None,
    }
}

fn preset(id: &str, values: &[(&str, &str)], enabled: &[(&str, bool)]) -> ParameterPreset {
    ParameterPreset {
        id: id.to_string(),
        name: id.to_string(),
        description: None,
        values: values.iter().map(|(k, v)| (k.to_string(), v.to_string())).collect(),
        enabled: enabled.iter().map(|(k, v)| (k.to_string(), *v)).collect(),
    }
}

fn script() -> GlobalScript {
    GlobalScript {
        id: "s1".into(),
        name: "deploy".into(),
        description: None,
        command: "python {{SCRIPT_FILE}}".into(),
        script_path: Some("/x/deploy.py".into()),
        working_dir: None,
        color: None,
        folder_id: None,
        tags: vec![],
        parameters: vec![
            param("target", ScriptParamType::String, Some("--target"), Some("staging"), true),
            param("verbose", ScriptParamType::Bool, Some("--verbose"), None, false),
            param("count", ScriptParamType::Number, Some("--count"), None, false),
            param("input", ScriptParamType::Path, None, None, false),
        ],
        parameter_presets: vec![
            preset("fast", &[("count", "3"), ("verbose", "true")], &[]),
            preset("flags", &[("count", "9")], &[("count", false), ("target", false), ("verbose", true)]),
        ],
        default_preset_id: None,
        env_vars: None,
        created_at: 0,
        updated_at: 0,
        order: 0,
        auto_discovered: false,
    }
}

fn value<'a>(form: &'a ParamFormState, name: &str) -> Option<&'a str> {
    form.values.iter().find(|(k, _)| k == name).map(|(_, v)| v.as_str())
}

fn enabled(form: &ParamFormState, name: &str) -> Option<bool> {
    form.enabled.iter().find(|(k, _)| k == name).map(|(_, v)| *v)
}

#[test]
fn fresh_form_starts_from_the_defaults() {
    let form = ParamFormState::new(&script(), None);
    assert_eq!(form.param_names, vec!["target", "verbose", "count", "input"]);
    assert_eq!(value(&form, "target"), Some("staging"));
    assert_eq!(value(&form, "verbose"), Some("false"));
    assert_eq!(value(&form, "count"), Some(""));
    assert_eq!(enabled(&form, "target"), Some(true));
    assert_eq!(enabled(&form, "verbose"), Some(true));
    assert_eq!(enabled(&form, "count"), Some(false));
    assert_eq!(enabled(&form, "input"), Some(false));
    assert_eq!((form.focused, form.editing, form.picking_preset, form.preset_index, form.cursor_pos), (0, false, false, 0, 0));
    assert_eq!(form.extra_args, "");
    assert_eq!(form.field_count(), 5);
    assert_eq!(form.focused_param_name(), Some("target"));
    assert!(!form.is_extra_args_focused());
    assert_eq!(form.build_command(), "python /x/deploy.py --target staging");
}

#[test]
fn default_preset_and_saved_state_are_laid_over_the_defaults() {
    let mut with_preset = script();
    with_preset.default_preset_id = Some("fast".into());
    let form = ParamFormState::new(&with_preset, None);
    assert_eq!(value(&form, "count"), Some("3"));
    assert_eq!(value(&form, "verbose"), Some("true"));
    assert_eq!(enabled(&form, "count"), Some(true));
    assert_eq!(form.build_command(), "python /x/deploy.py --target staging --verbose --count 3");

    with_preset.default_preset_id = Some("flags".into());
    let form = ParamFormState::new(&with_preset, None);
    assert_eq!(value(&form, "count"), Some("9"));
    assert_eq!(enabled(&form, "count"), Some(false));
    assert_eq!(enabled(&form, "target"), Some(true));
    assert_eq!(enabled(&form, "verbose"), Some(true));

    with_preset.default_preset_id = Some("missing".into());
    let saved = SavedRunState {
        param_values: vec![("target".into(), "prod".into()), ("ghost".into(), "x".into())],
        param_enabled: vec![("target".into(), false), ("input".into(), true)],
        extra_args: Some("--dry".into()),
    };
    let form = ParamFormState::new(&with_preset, Some(saved));
    assert_eq!(value(&form, "target"), Some("prod"));
    assert_eq!(value(&form, "ghost"), None);
    assert_eq!(enabled(&form, "target"), Some(true));
    assert_eq!(enabled(&form, "input"), Some(true));
    assert_eq!(form.extra_args, "--dry");
    assert_eq!(form.build_command(), "python /x/deploy.py --target prod --dry");
}

#[test]
fn command_line_of_a_form() {
    let mut form = ParamFormState::new(&script(), None);
    form.values = vec![
        ("target".into(), "prod".into()),
        ("verbose".into(), "true".into()),
        ("count".into(), "2".into()),
        ("input".into(), "in.txt".into()),
    ];
    form.enabled = vec![
        ("target".into(), true),
        ("verbose".into(), true),
        ("count".into(), false),
        ("input".into(), true),
    ];
    form.extra_args = "  --force ".into();
    assert_eq!(form.build_command(), "python /x/deploy.py --target prod --verbose in.txt --force");
    form.extra_args = "   ".into();
    form.values[1].1 = "yes".into();
    assert_eq!(form.build_command(), "python /x/deploy.py --target prod in.txt");
}

#[test]
fn focus_moves_between_the_fields() {
    let mut form = ParamFormState::new(&script(), None);
    form.move_up();
    assert_eq!(form.focused, 0);
    for expected in [1, 2, 3, 4, 4] {
        form.move_down();
        assert_eq!(form.focused, expected);
    }
    assert!(form.is_extra_args_focused());
    assert_eq!(form.focused_param_name(), None);
    form.move_up();
    assert_eq!(form.focused_param_name(), Some("input"));
}

#[test]
fn toggles() {
    let mut form = ParamFormState::new(&script(), None);
    form.toggle_focused();
    assert_eq!(enabled(&form, "target"), Some(true));
    form.focused = 2;
    form.toggle_focused();
    assert_eq!(enabled(&form, "count"), Some(true));
    form.toggle_focused();
    assert_eq!(enabled(&form, "count"), Some(false));
    form.focused = 1;
    form.toggle_bool();
    assert_eq!(value(&form, "verbose"), Some("true"));
    form.toggle_bool();
    assert_eq!(value(&form, "verbose"), Some("false"));
    form.focused = 4;
    let before = (form.values.clone(), form.enabled.clone());
    form.toggle_bool();
    form.toggle_focused();
    assert_eq!((form.values.clone(), form.enabled.clone()), before);
}

#[test]
fn presets_are_applied_parameter_by_parameter() {
    let mut form = ParamFormState::new(&script(), None);
    form.picking_preset = true;
    form.apply_preset(0);
    assert!(!form.picking_preset);
    assert_eq!(value(&form, "count"), Some("3"));
    assert_eq!(enabled(&form, "count"), Some(true));
    assert_eq!(value(&form, "target"), Some("staging"));
    form.apply_preset(1);
    assert_eq!(value(&form, "count"), Some("9"));
    assert_eq!(enabled(&form, "count"), Some(false));
    assert_eq!(enabled(&form, "target"), Some(true));
    form.picking_preset = true;
    form.apply_preset(7);
    assert!(!form.picking_preset);
    assert_eq!(value(&form, "count"), Some("9"));
}

#[test]
fn keys_in_the_form() {
    let mut form = ParamFormState::new(&script(), None);
    assert_eq!(handle_param_form(&mut form, Key::Char('j')), FormOutcome::Stay);
    assert_eq!(form.focused, 1);
    assert_eq!(handle_param_form(&mut form, Key::Enter), FormOutcome::Stay);
    assert_eq!(value(&form, "verbose"), Some("true"));
    assert!(!form.editing);
    handle_param_form(&mut form, Key::Tab);
    handle_param_form(&mut form, Key::Char(' '));
    assert_eq!(enabled(&form, "count"), Some(true));
    handle_param_form(&mut form, Key::Enter);
    assert!(form.editing);
    assert_eq!(form.cursor_pos, 0);
    for c in ['1', '2', '4'] {
        handle_param_form(&mut form, Key::Char(c));
    }
    assert_eq!(value(&form, "count"), Some("124"));
    handle_param_form(&mut form, Key::Left);
    handle_param_form(&mut form, Key::Char('3'));
    assert_eq!(value(&form, "count"), Some("1234"));
    assert_eq!(form.cursor_pos, 3);
    handle_param_form(&mut form, Key::Delete);
    assert_eq!(value(&form, "count"), Some("123"));
    handle_param_form(&mut form, Key::Delete);
    assert_eq!(value(&form, "count"), Some("123"));
    handle_param_form(&mut form, Key::Home);
    handle_param_form(&mut form, Key::Backspace);
    assert_eq!((value(&form, "count"), form.cursor_pos), (Some("123"), 0));
    handle_param_form(&mut form, Key::End);
    assert_eq!(form.cursor_pos, 3);
    handle_param_form(&mut form, Key::Right);
    assert_eq!(form.cursor_pos, 3);
    handle_param_form(&mut form, Key::Backspace);
    assert_eq!((value(&form, "count"), form.cursor_pos), (Some("12"), 2));
    assert_eq!(handle_param_form(&mut form, Key::Char('q')), FormOutcome::Stay);
    assert_eq!(value(&form, "count"), Some("12q"));
    assert_eq!(handle_param_form(&mut form, Key::Esc), FormOutcome::Stay);
    assert!(!form.editing);

    handle_param_form(&mut form, Key::Down);
    handle_param_form(&mut form, Key::Down);
    handle_param_form(&mut form, Key::Char(' '));
    assert!(form.editing && form.is_extra_args_focused());
    handle_param_form(&mut form, Key::Char('é'));
    handle_param_form(&mut form, Key::Char('x'));
    handle_param_form(&mut form, Key::Left);
    handle_param_form(&mut form, Key::Backspace);
    assert_eq!(form.extra_args, "x");
    handle_param_form(&mut form, Key::Enter);

    handle_param_form(&mut form, Key::Char('p'));
    assert!(form.picking_preset);
    handle_param_form(&mut form, Key::Char('k'));
    assert_eq!(form.preset_index, 0);
    handle_param_form(&mut form, Key::Down);
    handle_param_form(&mut form, Key::Down);
    assert_eq!(form.preset_index, 1);
    assert_eq!(handle_param_form(&mut form, Key::Char('x')), FormOutcome::Stay);
    handle_param_form(&mut form, Key::Enter);
    assert!(!form.picking_preset);
    assert_eq!(value(&form, "count"), Some("9"));
    handle_param_form(&mut form, Key::Char('p'));
    handle_param_form(&mut form, Key::Esc);
    assert!(!form.picking_preset);

    assert_eq!(handle_param_form(&mut form, Key::BackTab), FormOutcome::Stay);
    assert_eq!(form.focused, 3);
    assert_eq!(handle_param_form(&mut form, Key::Other), FormOutcome::Stay);
    assert_eq!(handle_param_form(&mut form, Key::Char('x')), FormOutcome::Confirm);
    assert_eq!(handle_param_form(&mut form, Key::Esc), FormOutcome::Cancel);
    assert_eq!(handle_param_form(&mut form, Key::Char('q')), FormOutcome::Cancel);
}

#[test]
fn preset_list_stays_closed_without_presets() {
    let mut bare = script();
    bare.parameter_presets.clear();
    let mut form = ParamFormState::new(&bare, None);
    handle_param_form(&mut form, Key::Char('p'));
    assert!(!form.picking_preset);
}
