use cortx_core::help_parser::{
    deduce_type, derive_name, detect_nargs, detect_parameters, extract_default, help_flags,
    help_invocation, parse_help_output, parse_shapes, select_help_output, type_of_hint, LineShape,
};
use cortx_core::models::ScriptParamType;

#[test]
fn test_parse_gnu_style() {
    let help = r#"
Usage: myapp [OPTIONS]

Options:
  -v, --verbose           Enable verbose output
  -o, --output FILE       Output file path
  -n, --count NUM         Number of items
      --no-color          Disable colors
  -h, --help              Show help
  -V, --version           Show version
"#;
    let params = parse_help_output(help);
    assert_eq!(params.len(), 6);

    let verbose = params.iter().find(|p| p.name == "verbose").unwrap();
    assert_eq!(verbose.param_type, ScriptParamType::Bool);
    assert_eq!(verbose.short_flag.as_deref(), Some("-v"));
    assert_eq!(verbose.long_flag.as_deref(), Some("--verbose"));

    let output = params.iter().find(|p| p.name == "output").unwrap();
    assert_eq!(output.param_type, ScriptParamType::Path);

    let count = params.iter().find(|p| p.name == "count").unwrap();
    assert_eq!(count.param_type, ScriptParamType::Number);
}

#[test]
fn test_parse_python_argparse_style() {
    let help = r#"usage: dir_tree.py [-h] [--exclude [EXCLUDE ...]] [--files] directory

Print a tree structure of a directory.

positional arguments:
  directory             The root directory to print the tree from.

options:
  -h, --help            show this help message and exit
  --exclude [EXCLUDE ...]
                        List of folders to exclude.
  --files               Include files in the tree structure.
"#;
    let params = parse_help_output(help);

    assert_eq!(
        params.len(),
        4,
        "Expected 4 params, got {}: {:?}",
        params.len(),
        params.iter().map(|p| &p.name).collect::<Vec<_>>()
    );

    let directory = params.iter().find(|p| p.name == "directory").unwrap();
    assert_eq!(directory.param_type, ScriptParamType::Path);
    assert!(directory.short_flag.is_none());
    assert!(directory.long_flag.is_none());
    assert!(directory.required);
    assert!(directory.description.as_deref().unwrap().contains("root directory"));

    let exclude = params.iter().find(|p| p.name == "exclude").unwrap();
    assert_eq!(exclude.long_flag.as_deref(), Some("--exclude"));
    assert!(exclude.description.as_deref().unwrap().contains("folders to exclude"));

    let files = params.iter().find(|p| p.name == "files").unwrap();
    assert_eq!(files.param_type, ScriptParamType::Bool);
    assert_eq!(files.long_flag.as_deref(), Some("--files"));
}

#[test]
fn test_parse_positional_args_multiple() {
    let help = r#"usage: mytool [-h] [--verbose] source destination

Copy files from source to destination.

positional arguments:
  source                Source file path
  destination           Destination directory path

options:
  -h, --help            show this help message and exit
  --verbose             Enable verbose output
"#;
    let params = parse_help_output(help);

    assert_eq!(
        params.len(),
        4,
        "Expected 4 params, got {}: {:?}",
        params.len(),
        params.iter().map(|p| &p.name).collect::<Vec<_>>()
    );

    let source = params.iter().find(|p| p.name == "source").unwrap();
    assert!(source.required);
    assert!(source.short_flag.is_none());
    assert!(source.long_flag.is_none());
    assert_eq!(source.param_type, ScriptParamType::Path);

    let dest = params.iter().find(|p| p.name == "destination").unwrap();
    assert!(dest.required);
    assert_eq!(dest.param_type, ScriptParamType::Path);

    let verbose = params.iter().find(|p| p.name == "verbose").unwrap();
    assert!(!verbose.required);
    assert_eq!(verbose.param_type, ScriptParamType::Bool);
}

#[test]
fn test_parse_multi_value_args() {
    let help = r#"usage: imposter_game [-h] [--player-list] [--players PLAYER [PLAYER ...]]
                     [--speed-range MIN MAX] [--nb-impostor N]
                     [--special-impostor-odds JSON] [--dry-run]

Imposter Game

options:
  -h, --help            show this help message and exit
  --player-list         Show all configured players from user_map.json and exit.
  --players PLAYER [PLAYER ...]
                        Players for this session (by name or discord ID). At
                        least 1 required.
  --speed-range MIN MAX
                        Speed range in km/h (default: 0 150).
  --nb-impostor N       Default number of impostors (default: 1).
  --special-impostor-odds JSON
                        Odds for special impostor counts as JSON. Example:
                        '{"2": 0.1, "all": 0.01}'
  --special-rank-game PROB
                        Probability (0-1) of a special rank game.
  --dry-run             Run the game logic without sending Discord DMs.
"#;
    let params = parse_help_output(help);

    let players = params.iter().find(|p| p.name == "players").expect("players param not found");
    assert_eq!(players.long_flag.as_deref(), Some("--players"));
    assert_eq!(players.param_type, ScriptParamType::String);
    assert_eq!(players.nargs.as_deref(), Some("+"));
    assert!(players.description.as_deref().unwrap().contains("Players for this session"));

    let speed_range = params.iter().find(|p| p.name == "speed_range").expect("speed_range param not found");
    assert_eq!(speed_range.long_flag.as_deref(), Some("--speed-range"));
    assert_eq!(speed_range.nargs.as_deref(), Some("2"));
    assert_eq!(speed_range.default_value.as_deref(), Some("0 150"));

    let nb_impostor = params.iter().find(|p| p.name == "nb_impostor").expect("nb_impostor param not found");
    assert_eq!(nb_impostor.long_flag.as_deref(), Some("--nb-impostor"));
    assert_eq!(nb_impostor.param_type, ScriptParamType::Number);
    assert_eq!(nb_impostor.default_value.as_deref(), Some("1"));
    assert!(nb_impostor.nargs.is_none());

    let odds = params
        .iter()
        .find(|p| p.name == "special_impostor_odds")
        .expect("special_impostor_odds param not found");
    assert_eq!(odds.param_type, ScriptParamType::String);

    let player_list = params.iter().find(|p| p.name == "player_list").expect("player_list param not found");
    assert_eq!(player_list.param_type, ScriptParamType::Bool);

    let dry_run = params.iter().find(|p| p.name == "dry_run").expect("dry_run param not found");
    assert_eq!(dry_run.param_type, ScriptParamType::Bool);
}

#[test]
fn test_extract_default_value() {
    assert_eq!(extract_default(Some("Output directory (default: ./out)")), Some("./out".to_string()));
    assert_eq!(extract_default(Some("Port number [default: 8080]")), Some("8080".to_string()));
    assert_eq!(extract_default(Some("Simple description")), None);
    assert_eq!(extract_default(Some("Speed range in km/h (default: 0 150).")), Some("0 150".to_string()));
    assert_eq!(extract_default(Some("Default number of impostors (default: 1).")), Some("1".to_string()));
}

#[test]
fn default_of_no_description_is_none() {
    assert_eq!(extract_default(None), None);
    assert_eq!(extract_default(Some("quoted (default: 'x y')")), Some("x y".to_string()));
    assert_eq!(extract_default(Some("upper (DEFAULTS = 3 )")), Some("3".to_string()));
}

#[test]
fn names_come_from_the_flags() {
    assert_eq!(derive_name(Some("--dry-run"), Some("-d")), "dry_run");
    assert_eq!(derive_name(Some("--a-b-c"), None), "a_b_c");
    assert_eq!(derive_name(None, Some("-v")), "v");
    assert_eq!(derive_name(None, None), "unknown");
    assert_eq!(derive_name(Some("---"), None), "");
}

#[test]
fn nargs_come_from_the_placeholder() {
    assert_eq!(detect_nargs(None), None);
    assert_eq!(detect_nargs(Some("FILE")), None);
    assert_eq!(detect_nargs(Some("MIN MAX")), Some("2".to_string()));
    assert_eq!(detect_nargs(Some("A B C")), Some("3".to_string()));
    assert_eq!(detect_nargs(Some("PLAYER [PLAYER ...]")), Some("+".to_string()));
    assert_eq!(detect_nargs(Some("[EXCLUDE ...]")), Some("+".to_string()));
    assert_eq!(detect_nargs(Some("<a> <b>")), None);
    assert_eq!(detect_nargs(Some("A ...")), None);
}

#[test]
fn types_come_from_placeholder_or_description() {
    assert_eq!(deduce_type(Some("NUM"), None, false), (ScriptParamType::Number, true));
    assert_eq!(deduce_type(Some("<port>"), None, false), (ScriptParamType::Number, true));
    assert_eq!(deduce_type(Some("[FILE ...]"), None, false), (ScriptParamType::Path, true));
    assert_eq!(deduce_type(Some("dir"), Some("a count"), false), (ScriptParamType::Path, true));
    assert_eq!(deduce_type(Some("NAME"), None, true), (ScriptParamType::String, true));
    assert_eq!(deduce_type(None, Some("anything"), false), (ScriptParamType::Bool, false));
    assert_eq!(deduce_type(None, Some("The PORT to use"), true), (ScriptParamType::Number, true));
    assert_eq!(deduce_type(None, Some("Input File"), true), (ScriptParamType::Path, true));
    assert_eq!(deduce_type(None, Some("a name"), true), (ScriptParamType::String, true));
    assert_eq!(deduce_type(None, None, true), (ScriptParamType::String, true));
    assert_eq!(type_of_hint("<[INTEGER...]>"), ScriptParamType::Number);
    assert_eq!(type_of_hint("[<INTEGER>]..."), ScriptParamType::String);
    assert_eq!(type_of_hint("[ PORT ]"), ScriptParamType::Number);
    assert_eq!(type_of_hint("FOLDER......"), ScriptParamType::Path);
    assert_eq!(type_of_hint(""), ScriptParamType::String);
}

#[test]
fn a_name_is_kept_once() {
    let help = "options:\n  -v, --verbose   first\n  --verbose       second\n";
    let params = parse_help_output(help);
    assert_eq!(params.len(), 1);
    assert_eq!(params[0].description.as_deref(), Some("first"));
    assert_eq!(params[0].short_flag.as_deref(), Some("-v"));
}

#[test]
fn descriptions_take_their_continuation_lines() {
    let help = "options:\n  --one VALUE   begins here\n                and goes on\n                to the end\n  --two\n                only this line\n                not this one\n";
    let params = parse_help_output(help);
    assert_eq!(params.len(), 2);
    assert_eq!(params[0].description.as_deref(), Some("begins here and goes on to the end"));
    assert_eq!(params[1].description.as_deref(), Some("only this line"));
    assert_eq!(params[1].param_type, ScriptParamType::Bool);
}

#[test]
fn positional_lines_count_only_in_their_section() {
    let help = "commands:\n  build        Build it\n\npositional arguments:\n  target       The port number\n\noptions:\n  other        not an argument\n";
    let params = parse_help_output(help);
    assert_eq!(params.iter().map(|p| p.name.as_str()).collect::<Vec<_>>(), vec!["target"]);
    assert_eq!(params[0].param_type, ScriptParamType::Number);
    assert!(params[0].required);
    assert!(params[0].nargs.is_none());
}

#[test]
fn empty_help_has_no_parameters() {
    assert!(parse_help_output("").is_empty());
    assert!(parse_help_output("\n\n   \n").is_empty());
    assert!(parse_shapes(&Vec::new()).is_empty());
}

#[test]
fn shapes_decide_what_a_line_is() {
    let plain = |text: &str| LineShape {
        text: text.to_string(),
        is_header: false,
        short_option: None,
        long_option: None,
        positional: None,
        continuation: None,
    };
    let groups = |g: &[Option<&str>]| Some(g.iter().map(|x| x.map(|s| s.to_string())).collect::<Vec<_>>());
    let mut header = plain("Positional Arguments:");
    header.is_header = true;
    let mut argument = plain("  input   ");
    argument.positional = groups(&[Some("  input"), Some("input"), None]);
    let mut more = plain("            the file to read  ");
    more.continuation = groups(&[Some("x"), Some("the file to read  ")]);
    let mut option = plain("  -q");
    option.short_option = groups(&[Some("  -q"), Some("-q")]);
    let mut late = plain("  output");
    late.positional = groups(&[Some("  output"), Some("output"), Some("where to write")]);
    let params = parse_shapes(&vec![header, argument, more, option, late]);
    assert_eq!(params.len(), 2);
    assert_eq!(params[0].name, "input");
    assert_eq!(params[0].description.as_deref(), Some("the file to read"));
    assert_eq!(params[0].param_type, ScriptParamType::Path);
    assert_eq!(params[1].name, "q");
    assert_eq!(params[1].short_flag.as_deref(), Some("-q"));
    assert!(params[1].long_flag.is_none() && params[1].description.is_none());
}

#[test]
fn help_is_asked_for_with_two_flags() {
    assert_eq!(help_flags(), vec!["--help", "-h"]);
    assert_eq!(
        help_invocation("python  tool.py run", "--help"),
        Ok(("python".to_string(), vec!["tool.py".to_string(), "run".to_string(), "--help".to_string()]))
    );
    assert_eq!(help_invocation("tool", "-h"), Ok(("tool".to_string(), vec!["-h".to_string()])));
    assert_eq!(help_invocation("   ", "-h"), Err("Empty command".to_string()));
}

#[test]
fn the_longer_output_is_the_help_text() {
    assert_eq!(select_help_output("usage: x", "warn"), Ok("usage: x".to_string()));
    assert_eq!(select_help_output("ab", "usage"), Ok("usage".to_string()));
    assert_eq!(select_help_output("same", "size"), Ok("size".to_string()));
    assert_eq!(select_help_output("", ""), Err("No help output received".to_string()));
    assert_eq!(select_help_output(" \n", ""), Err("No help output received".to_string()));
    assert_eq!(select_help_output("é", "ab"), Ok("ab".to_string()));
}

#[test]
fn detection_passes_failures_on() {
    let found = detect_parameters(Ok("options:\n  --fast   Go fast\n".to_string())).unwrap();
    assert_eq!(found.len(), 1);
    assert_eq!(found[0].name, "fast");
    assert_eq!(
        detect_parameters(Err("No such file".to_string())).unwrap_err(),
        "Failed to run help command: No such file"
    );
}
