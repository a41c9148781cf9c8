//! What the engine asks of the operating system when it launches an entity.

use crate::models::{texts, Platform};
use crate::pairs::{overlaid, put_text, text_map};
use vstd::prelude::*;

verus! {

/// The program that runs a shell command line on `platform`.
pub open spec fn shell_program(platform: Platform) -> Seq<char> {
    match platform {
        Platform::Windows => "cmd"@,
        _ => "sh"@,
    }
}

/// The flag after which the shell of `platform` expects a command line.
pub open spec fn shell_flag(platform: Platform) -> Seq<char> {
    match platform {
        Platform::Windows => "/C"@,
        _ => "-c"@,
    }
}

/// Wraps a shell command line into a program and its arguments: the
/// platform's shell, its command flag, and the line as one argument.
pub fn parse_command(platform: Platform, command: &str) -> (parsed: (String, Vec<String>))
    ensures
        parsed.0@ == shell_program(platform),
        texts(parsed.1@) == seq![shell_flag(platform), command@],
{
    let mut args: Vec<String> = Vec::new();
    let program = match platform {
        Platform::Windows => {
            args.push("/C".to_owned());
            "cmd".to_owned()
        },
        _ => {
            args.push("-c".to_owned());
            "sh".to_owned()
        },
    };
    args.push(command.to_owned());
    assert(texts(args@) =~= seq![shell_flag(platform), command@]);
    (program, args)
}

/// The texts of a list of pairs of strings.
pub open spec fn pair_texts(pairs: Seq<(String, String)>) -> Seq<(Seq<char>, Seq<char>)> {
    pairs.map_values(|p: (String, String)| (p.0@, p.1@))
}

/// The environment variables that every child gets on `platform`, before
/// the caller's own: on Windows two that make Python write UTF-8.
pub open spec fn forced_env_texts(platform: Platform) -> Seq<(Seq<char>, Seq<char>)> {
    match platform {
        Platform::Windows => seq![("PYTHONUTF8"@, "1"@), ("PYTHONIOENCODING"@, "utf-8"@)],
        _ => seq![],
    }
}

/// The environment variables that every child gets on `platform`.
pub fn forced_env(platform: Platform) -> (env: Vec<(String, String)>)
    ensures
        pair_texts(env@) == forced_env_texts(platform),
{
    let mut env: Vec<(String, String)> = Vec::new();
    match platform {
        Platform::Windows => {
            env.push(("PYTHONUTF8".to_owned(), "1".to_owned()));
            env.push(("PYTHONIOENCODING".to_owned(), "utf-8".to_owned()));
        },
        _ => {},
    }
    assert(pair_texts(env@) =~= forced_env_texts(platform));
    env
}

/// One process to create. Its standard output and standard error are to be
/// captured as pipes. The child inherits the ambient environment; on top of
/// it come `forced_env` and then `env_vars`, each replacing a variable of the
/// same name.
#[derive(Debug, Clone)]
pub struct SpawnRequest {
    pub program: String,
    pub args: Vec<String>,
    pub working_dir: String,
    pub forced_env: Vec<(String, String)>,
    pub env_vars: Option<Vec<(String, String)>>,
    /// Whether to keep a console window from appearing (Windows only).
    pub hide_window: bool,
}

impl SpawnRequest {
    /// The request to run `program` with `args` in `working_dir` on
    /// `platform`.
    pub fn new(
        platform: Platform,
        program: String,
        args: Vec<String>,
        working_dir: String,
        env_vars: Option<Vec<(String, String)>>,
    ) -> (request: SpawnRequest)
        ensures
            request.program == program,
            request.args == args,
            request.working_dir == working_dir,
            request.env_vars == env_vars,
            pair_texts(request.forced_env@) == forced_env_texts(platform),
            request.hide_window == (platform == Platform::Windows),
    {
        SpawnRequest {
            program,
            args,
            working_dir,
            forced_env: forced_env(platform),
            env_vars,
            hide_window: match platform {
                Platform::Windows => true,
                _ => false,
            },
        }
    }
}

/// What the operating system handed back for a `SpawnRequest`: the child
/// handle and the process id it was given.
#[derive(Debug)]
pub struct Spawned<C> {
    pub child: C,
    pub pid: u32,
}

/// The pairs of an optional list of overrides; none where there is no list.
pub open spec fn overrides_of(env_vars: Option<Vec<(String, String)>>) -> Seq<(String, String)> {
    match env_vars {
        Some(env) => env@,
        None => seq![],
    }
}

/// The environment that the child of `request` runs in, given the ambient
/// environment: the ambient variables, with the forced ones laid over them
/// and the caller's overrides laid over those.
pub open spec fn child_environment(ambient: Seq<(String, String)>, request: SpawnRequest) -> Map<
    Seq<char>,
    Seq<char>,
> {
    overlaid(
        overlaid(text_map(ambient), request.forced_env@, request.forced_env@.len() as int),
        overrides_of(request.env_vars),
        overrides_of(request.env_vars).len() as int,
    )
}

fn lay_over(env: &mut Vec<(String, String)>, pairs: &Vec<(String, String)>)
    ensures
        text_map(final(env)@) == overlaid(text_map(old(env)@), pairs@, pairs@.len() as int),
{
    let ghost base = text_map(env@);
    let mut i: usize = 0;
    while i < pairs.len()
        invariant
            i <= pairs@.len(),
            text_map(env@) == overlaid(base, pairs@, i as int),
        decreases pairs@.len() - i,
    {
        put_text(env, pairs[i].0.as_str(), pairs[i].1.clone());
        i += 1;
    }
}

/// Merges the environment of the child of `request` from the ambient
/// environment: an override replaces the ambient variable of the same name,
/// and every other ambient variable is inherited.
pub fn merged_environment(ambient: Vec<(String, String)>, request: &SpawnRequest) -> (env: Vec<
    (String, String),
>)
    ensures
        text_map(env@) == child_environment(ambient@, *request),
{
    let mut env = ambient;
    lay_over(&mut env, &request.forced_env);
    match &request.env_vars {
        Some(overrides) => lay_over(&mut env, overrides),
        None => {},
    }
    env
}

/// Whether one of the first `upto` of `pairs` has the key `key`.
pub open spec fn names_key(pairs: Seq<(String, String)>, key: Seq<char>, upto: int) -> bool {
    exists|i: int| 0 <= i < upto && i < pairs.len() && (#[trigger] pairs[i]).0@ == key
}

/// A key that the overlay does not name keeps what the base gives it, and a
/// key that the overlay names is defined.
pub proof fn lemma_overlaid(
    base: Map<Seq<char>, Seq<char>>,
    pairs: Seq<(String, String)>,
    upto: int,
    key: Seq<char>,
)
    requires
        0 <= upto <= pairs.len(),
    ensures
        !names_key(pairs, key, upto) ==> overlaid(base, pairs, upto).contains_key(key)
            == base.contains_key(key) && (base.contains_key(key) ==> overlaid(
            base,
            pairs,
            upto,
        )[key] == base[key]),
        names_key(pairs, key, upto) ==> overlaid(base, pairs, upto).contains_key(key),
        upto > 0 && pairs[upto - 1].0@ == key ==> overlaid(base, pairs, upto)[key] == pairs[upto
            - 1].1@,
    decreases upto,
{
    if upto > 0 {
        lemma_overlaid(base, pairs, upto - 1, key);
        if names_key(pairs, key, upto) && pairs[upto - 1].0@ != key {
            let i = choose|i: int| 0 <= i < upto && i < pairs.len() && (#[trigger] pairs[i]).0@ == key;
            assert(names_key(pairs, key, upto - 1));
        }
        if names_key(pairs, key, upto - 1) {
            let i = choose|i: int|
                0 <= i < upto - 1 && i < pairs.len() && (#[trigger] pairs[i]).0@ == key;
            assert(names_key(pairs, key, upto));
        }
    }
}

/// Environment merge. A variable that neither the forced variables nor the
/// overrides name is in the child's environment exactly if it is in the
/// ambient one, with the same value. Every variable that the overrides name
/// is in the child's environment, and the last override of a name decides
/// its value.
pub proof fn law_environment_merge(
    ambient: Seq<(String, String)>,
    request: SpawnRequest,
    key: Seq<char>,
)
    ensures
        ({
            let forced = request.forced_env@;
            let overrides = overrides_of(request.env_vars);
            let child = child_environment(ambient, request);
            &&& !names_key(forced, key, forced.len() as int) && !names_key(
                overrides,
                key,
                overrides.len() as int,
            ) ==> child.contains_key(key) == text_map(ambient).contains_key(key) && (
            child.contains_key(key) ==> child[key] == text_map(ambient)[key])
            &&& names_key(overrides, key, overrides.len() as int) ==> child.contains_key(key)
            &&& overrides.len() > 0 && overrides.last().0@ == key ==> child[key]
                == overrides.last().1@
        }),
{
    let forced = request.forced_env@;
    let overrides = overrides_of(request.env_vars);
    let with_forced = overlaid(text_map(ambient), forced, forced.len() as int);
    lemma_overlaid(text_map(ambient), forced, forced.len() as int, key);
    lemma_overlaid(with_forced, overrides, overrides.len() as int, key);
}

} // verus!
