//! Resolving a declarative environment descriptor to the concrete
//! interpreter command of a launch, and assembling the full argument
//! list of the worker process.
//!
//! Resolution is a pure function of the descriptor, the project
//! directory and the platform; whether a resolved interpreter file
//! exists on disk is answered by the embedding application and handed
//! in as a boolean.  A virtual-environment descriptor whose interpreter
//! is missing fails closed — it is never silently replaced by a system
//! interpreter.

use vstd::prelude::*;
use vstd::string::StringExecFns;
use vstd::string::StrSliceExecFns;

use crate::errors::{ErrorKind, SupervisorError};

verus! {

/// The environment descriptor read from a project's metadata.
#[derive(Clone, Debug)]
pub enum PythonEnvironment {
    System,
    Venv { path: String },
    Conda { name: String },
    Virtualenv { path: String },
}

/// The path separator of the platform.
pub open spec fn spec_sep(windows: bool) -> char {
    if windows {
        '\\'
    } else {
        '/'
    }
}

/// Whether `s` is taken as an absolute path: on Unix a leading `/`; on
/// Windows a leading slash of either kind or a drive letter followed by
/// a colon.
pub open spec fn spec_is_absolute(s: Seq<char>, windows: bool) -> bool {
    if windows {
        (s.len() > 0 && (s[0] == '\\' || s[0] == '/')) || (s.len() >= 2 && s[1] == ':')
    } else {
        s.len() > 0 && s[0] == '/'
    }
}

/// `base` and `rel` joined with the platform separator.
pub open spec fn spec_join(base: Seq<char>, rel: Seq<char>, windows: bool) -> Seq<char> {
    base + seq![spec_sep(windows)] + rel
}

/// The root directory of a virtual environment: its configured path
/// when absolute, else that path under the project directory.
pub open spec fn spec_venv_root(path: Seq<char>, model_dir: Seq<char>, windows: bool) -> Seq<
    char,
> {
    if spec_is_absolute(path, windows) {
        path
    } else {
        spec_join(model_dir, path, windows)
    }
}

/// The interpreter inside a virtual environment: `Scripts\python.exe`
/// on Windows, `bin/python` elsewhere, under the environment root.
pub open spec fn spec_venv_interpreter(
    path: Seq<char>,
    model_dir: Seq<char>,
    windows: bool,
) -> Seq<char> {
    let root = spec_venv_root(path, model_dir, windows);
    if windows {
        spec_join(spec_join(root, "Scripts"@, windows), "python.exe"@, windows)
    } else {
        spec_join(spec_join(root, "bin"@, windows), "python"@, windows)
    }
}

/// Whether `p` is taken as an absolute path on the given platform.
pub fn is_absolute_path(p: &str, windows: bool) -> (r: bool)
    ensures
        r == spec_is_absolute(p@, windows),
{
    let n = p.unicode_len();
    if windows {
        let lead = n > 0 && {
            let c = p.get_char(0);
            c == '\\' || c == '/'
        };
        let drive = n >= 2 && p.get_char(1) == ':';
        lead || drive
    } else {
        n > 0 && p.get_char(0) == '/'
    }
}

/// `base` and `rel` joined with the platform separator.
pub fn join_path(base: &str, rel: &str, windows: bool) -> (r: String)
    ensures
        r@ == spec_join(base@, rel@, windows),
{
    let sep: &str = if windows {
        "\\"
    } else {
        "/"
    };
    proof {
        reveal_strlit("\\");
        reveal_strlit("/");
        assert(sep@ =~= seq![spec_sep(windows)]);
    }
    let mut r = base.to_owned();
    r.append(sep);
    r.append(rel);
    proof {
        assert(r@ =~= spec_join(base@, rel@, windows));
    }
    r
}

/// The interpreter path a venv or virtualenv descriptor resolves to.
/// The embedding application checks this path for existence before the
/// launch command is built.
pub fn venv_interpreter_path(path: &str, model_dir: &str, windows: bool) -> (r: String)
    ensures
        r@ == spec_venv_interpreter(path@, model_dir@, windows),
{
    let root: String = if is_absolute_path(path, windows) {
        path.to_owned()
    } else {
        join_path(model_dir, path, windows)
    };
    if windows {
        let scripts = join_path(root.as_str(), "Scripts", windows);
        join_path(scripts.as_str(), "python.exe", windows)
    } else {
        let bin = join_path(root.as_str(), "bin", windows);
        join_path(bin.as_str(), "python", windows)
    }
}

/// The user handler script inside the project directory.
pub fn handler_script_path(model_dir: &str, windows: bool) -> (r: String)
    ensures
        r@ == spec_join(model_dir@, "handler_io.py"@, windows),
{
    join_path(model_dir, "handler_io.py", windows)
}

/// The bootstrap script inside the project directory, rewritten from a
/// fixed template before every launch.
pub fn bootstrap_script_path(model_dir: &str, windows: bool) -> (r: String)
    ensures
        r@ == spec_join(model_dir@, "python_handler_base.py"@, windows),
{
    join_path(model_dir, "python_handler_base.py", windows)
}

/// The text of the fixed bootstrap script: it loads the user handler,
/// announces readiness (or the failure) as the one-line init message,
/// answers pings, and wraps handler errors in the detailed error
/// format this library collapses.
pub open spec fn spec_bootstrap_script() -> Seq<char> {
    r#"import importlib.util
import json
import sys

spec = importlib.util.spec_from_file_location("user_handler", sys.argv[1])
module = importlib.util.module_from_spec(spec)
try:
    spec.loader.exec_module(module)
    handler = module.Handler()
    print(json.dumps({"status": "ready"}), flush=True)
except Exception as exc:
    print(json.dumps({"status": "error", "summary": str(exc)}), flush=True)
    sys.exit(1)

for line in sys.stdin:
    request = json.loads(line)
    if request.get("ping") is True:
        print(json.dumps({"pong": True, "status": "ready"}), flush=True)
        continue
    try:
        print(json.dumps(handler.run(request)), flush=True)
    except Exception as exc:
        print(
            json.dumps(
                {
                    "error": str(exc),
                    "error_type": type(exc).__name__,
                    "summary": str(exc),
                }
            ),
            flush=True,
        )
"#@
}

/// The fixed bootstrap template the launcher materializes into the
/// project directory before every spawn, so the worker always runs the
/// current bootstrap logic, never a stale copy.  The embedding
/// application writes exactly this text to `bootstrap_script_path`.
pub fn bootstrap_script_text() -> (r: &'static str)
    ensures
        r@ == spec_bootstrap_script(),
{
    r#"import importlib.util
import json
import sys

spec = importlib.util.spec_from_file_location("user_handler", sys.argv[1])
module = importlib.util.module_from_spec(spec)
try:
    spec.loader.exec_module(module)
    handler = module.Handler()
    print(json.dumps({"status": "ready"}), flush=True)
except Exception as exc:
    print(json.dumps({"status": "error", "summary": str(exc)}), flush=True)
    sys.exit(1)

for line in sys.stdin:
    request = json.loads(line)
    if request.get("ping") is True:
        print(json.dumps({"pong": True, "status": "ready"}), flush=True)
        continue
    try:
        print(json.dumps(handler.run(request)), flush=True)
    except Exception as exc:
        print(
            json.dumps(
                {
                    "error": str(exc),
                    "error_type": type(exc).__name__,
                    "summary": str(exc),
                }
            ),
            flush=True,
        )
"#
}

/// A concrete command to launch: the program and its arguments.
#[derive(Clone, Debug)]
pub struct PythonCommand {
    pub program: String,
    pub args: Vec<String>,
}

/// The argument list of `v`, as a sequence of character sequences.
pub open spec fn args_view(v: Seq<String>) -> Seq<Seq<char>> {
    v.map_values(|s: String| s@)
}

/// The interpreter invocation a descriptor resolves to, before the
/// script arguments are appended.  `None` means `System`.
pub open spec fn spec_base_command(
    env: Option<PythonEnvironment>,
    model_dir: Seq<char>,
    windows: bool,
) -> (Seq<char>, Seq<Seq<char>>) {
    match env {
        None => ("python"@, Seq::empty()),
        Some(PythonEnvironment::System) => ("python"@, Seq::empty()),
        Some(PythonEnvironment::Venv { path }) => (
            spec_venv_interpreter(path@, model_dir, windows),
            Seq::empty(),
        ),
        Some(PythonEnvironment::Virtualenv { path }) => (
            spec_venv_interpreter(path@, model_dir, windows),
            Seq::empty(),
        ),
        Some(PythonEnvironment::Conda { name }) => (
            "conda"@,
            seq!["run"@, "-n"@, name@, "python"@],
        ),
    }
}

/// Whether the descriptor requires a resolved interpreter file to exist
/// before a launch may proceed.
pub open spec fn needs_interpreter_file(env: Option<PythonEnvironment>) -> bool {
    env matches Some(PythonEnvironment::Venv { .. }) || env matches Some(
        PythonEnvironment::Virtualenv { .. },
    )
}

/// The message of a failed venv or virtualenv resolution.
pub open spec fn missing_interpreter_message(
    env: Option<PythonEnvironment>,
    model_dir: Seq<char>,
    windows: bool,
) -> Seq<char> {
    match env {
        Some(PythonEnvironment::Venv { path }) => "Python executable not found in venv: "@
            + spec_venv_interpreter(path@, model_dir, windows),
        Some(PythonEnvironment::Virtualenv { path }) =>
        "Python executable not found in virtualenv: "@ + spec_venv_interpreter(
            path@,
            model_dir,
            windows,
        ),
        _ => Seq::empty(),
    }
}

/// Builds the interpreter command a descriptor resolves to.
/// `interpreter_exists` is the embedding application's answer to
/// whether the path of `venv_interpreter_path` exists on disk; it is
/// consulted only for the venv and virtualenv descriptors, which fail
/// closed without it.
pub fn build_python_command(
    env: &Option<PythonEnvironment>,
    model_dir: &str,
    windows: bool,
    interpreter_exists: bool,
) -> (r: Result<PythonCommand, SupervisorError>)
    ensures
        (if needs_interpreter_file(*env) && !interpreter_exists {
            r matches Err(e) && e.kind == ErrorKind::Launch && e.message@
                == missing_interpreter_message(*env, model_dir@, windows)
        } else {
            r matches Ok(c) && c.program@ == spec_base_command(*env, model_dir@, windows).0
                && args_view(c.args@) == spec_base_command(*env, model_dir@, windows).1
        }),
{
    match env {
        None | Some(PythonEnvironment::System) => {
            let program: &str = "python";
            let r = PythonCommand { program: program.to_owned(), args: Vec::new() };
            proof {
                assert(args_view(r.args@) =~= spec_base_command(*env, model_dir@, windows).1);
            }
            Ok(r)
        },
        Some(PythonEnvironment::Venv { path }) => {
            let interp = venv_interpreter_path(path.as_str(), model_dir, windows);
            if interpreter_exists {
                let r = PythonCommand { program: interp, args: Vec::new() };
                proof {
                    assert(args_view(r.args@) =~= spec_base_command(*env, model_dir@, windows).1);
                }
                Ok(r)
            } else {
                let head: &str = "Python executable not found in venv: ";
                let m = head.to_owned().concat(interp.as_str());
                Err(SupervisorError::new(ErrorKind::Launch, m))
            }
        },
        Some(PythonEnvironment::Virtualenv { path }) => {
            let interp = venv_interpreter_path(path.as_str(), model_dir, windows);
            if interpreter_exists {
                let r = PythonCommand { program: interp, args: Vec::new() };
                proof {
                    assert(args_view(r.args@) =~= spec_base_command(*env, model_dir@, windows).1);
                }
                Ok(r)
            } else {
                let head: &str = "Python executable not found in virtualenv: ";
                let m = head.to_owned().concat(interp.as_str());
                Err(SupervisorError::new(ErrorKind::Launch, m))
            }
        },
        Some(PythonEnvironment::Conda { name }) => {
            let program: &str = "conda";
            let mut args: Vec<String> = Vec::new();
            let a0: &str = "run";
            let a1: &str = "-n";
            let a3: &str = "python";
            args.push(a0.to_owned());
            args.push(a1.to_owned());
            args.push(name.clone());
            args.push(a3.to_owned());
            let r = PythonCommand { program: program.to_owned(), args };
            proof {
                assert(args_view(r.args@) =~= spec_base_command(*env, model_dir@, windows).1);
            }
            Ok(r)
        },
    }
}

/// Appends the fixed script arguments to a resolved interpreter
/// command: unbuffered output, the bootstrap script, and the user
/// handler script, in that order.
pub fn launch_argv(cmd: PythonCommand, model_dir: &str, windows: bool) -> (r: PythonCommand)
    ensures
        r.program@ == cmd.program@,
        args_view(r.args@) == args_view(cmd.args@) + seq![
            "-u"@,
            spec_join(model_dir@, "python_handler_base.py"@, windows),
            spec_join(model_dir@, "handler_io.py"@, windows),
        ],
{
    let PythonCommand { program, mut args } = cmd;
    let unbuffered: &str = "-u";
    args.push(unbuffered.to_owned());
    args.push(bootstrap_script_path(model_dir, windows));
    args.push(handler_script_path(model_dir, windows));
    let r = PythonCommand { program, args };
    proof {
        assert(args_view(r.args@) =~= args_view(cmd.args@) + seq![
            "-u"@,
            spec_join(model_dir@, "python_handler_base.py"@, windows),
            spec_join(model_dir@, "handler_io.py"@, windows),
        ]);
    }
    r
}

/// The pre-launch check of the user handler script: a missing handler
/// fails the load before anything is spawned, naming the missing path.
pub fn check_handler_present(model_dir: &str, windows: bool, handler_exists: bool) -> (r: Result<
    (),
    SupervisorError,
>)
    ensures
        (if handler_exists {
            r is Ok
        } else {
            r matches Err(e) && e.kind == ErrorKind::Launch && e.message@
                == "handler script not found: "@ + spec_join(model_dir@, "handler_io.py"@, windows)
        }),
{
    if handler_exists {
        Ok(())
    } else {
        let head: &str = "handler script not found: ";
        let m = head.to_owned().concat(handler_script_path(model_dir, windows).as_str());
        Err(SupervisorError::new(ErrorKind::Launch, m))
    }
}

/// What the embedding application found when it read the project's
/// metadata file for the environment descriptor.
pub enum MetaOutcome {
    /// No metadata file: the system environment is assumed.
    Absent,
    /// The file was read and parsed; its (optional) descriptor.
    Environment(Option<PythonEnvironment>),
    /// The file exists but could not be read.
    ReadFailed(String),
    /// The file was read but could not be parsed.
    ParseFailed(String),
}

/// Turns a metadata outcome into the descriptor of the launch, or the
/// launch failure it causes.
pub fn resolve_metadata(meta: MetaOutcome) -> (r: Result<
    Option<PythonEnvironment>,
    SupervisorError,
>)
    ensures
        (match meta {
            MetaOutcome::Absent => r matches Ok(e) && e is None,
            MetaOutcome::Environment(env) => r matches Ok(e) && e == env,
            MetaOutcome::ReadFailed(why) => r matches Err(e) && e.kind == ErrorKind::Launch
                && e.message@ == "Failed to read model_meta.json: "@ + why@,
            MetaOutcome::ParseFailed(why) => r matches Err(e) && e.kind == ErrorKind::Launch
                && e.message@ == "Failed to parse model_meta.json: "@ + why@,
        }),
{
    match meta {
        MetaOutcome::Absent => Ok(None),
        MetaOutcome::Environment(env) => Ok(env),
        MetaOutcome::ReadFailed(why) => {
            let head: &str = "Failed to read model_meta.json: ";
            let m = head.to_owned().concat(why.as_str());
            Err(SupervisorError::new(ErrorKind::Launch, m))
        },
        MetaOutcome::ParseFailed(why) => {
            let head: &str = "Failed to parse model_meta.json: ";
            let m = head.to_owned().concat(why.as_str());
            Err(SupervisorError::new(ErrorKind::Launch, m))
        },
    }
}

} // verus!
