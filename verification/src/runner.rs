//! Launching a tool: strategy choice, the built-in fallback table, the
//! provisioning fast path, and the child-process plan of a
//! local-interpreter run.
//!
//! The launcher never mutates the orchestrator's own environment: the
//! search-path prefix and the environment marker are values for the child
//! process alone.

use vstd::prelude::*;
use vstd::string::{StrSliceExecFns, StringExecFns};

use crate::config::{Commands, ToolConfig};
use crate::environment::ExecutionEnvironment;
use crate::error::TuxBoxError;
use crate::python::dec_digits;
use crate::text::{spec_starts_with, str_eq_str, str_starts_with};
use crate::tool_state::{ToolState, VenvState};
use crate::version::is_space;

verus! {

/// Index of the first whitespace character, or `s.len()`.
pub open spec fn find_ws(s: Seq<char>) -> int
    decreases s.len(),
{
    if s.len() == 0 {
        0
    } else if is_space(s[0]) {
        0
    } else {
        1 + find_ws(s.drop_first())
    }
}

proof fn lemma_find_ws_is(s: Seq<char>, i: int)
    requires
        0 <= i <= s.len(),
        forall|k: int| 0 <= k < i ==> !is_space(s[k]),
        i == s.len() || is_space(s[i]),
    ensures
        find_ws(s) == i,
    decreases i,
{
    if s.len() == 0 {
    } else if i == 0 {
    } else {
        assert(!is_space(s[0]));
        assert(forall|k: int| 0 <= k < i - 1 ==> s.drop_first()[k] == s[k + 1]);
        lemma_find_ws_is(s.drop_first(), i - 1);
    }
}

proof fn lemma_find_ws_bounds(s: Seq<char>)
    ensures
        0 <= find_ws(s) <= s.len(),
        find_ws(s) < s.len() ==> is_space(s[find_ws(s)]),
        forall|k: int| 0 <= k < find_ws(s) ==> !is_space(s[k]),
    decreases s.len(),
{
    if s.len() == 0 {
    } else if is_space(s[0]) {
    } else {
        lemma_find_ws_bounds(s.drop_first());
        assert(forall|k: int| 1 <= k < find_ws(s) ==> s[k] == s.drop_first()[k - 1]);
    }
}

/// The whitespace-separated words of a run command, in order; empty when
/// the command is all whitespace.
pub open spec fn spec_split_ws(s: Seq<char>) -> Seq<Seq<char>>
    decreases s.len() via spec_split_ws_decreases
{
    if s.len() == 0 {
        Seq::empty()
    } else if is_space(s[0]) {
        spec_split_ws(s.drop_first())
    } else {
        let e = find_ws(s);
        seq![s.take(e)] + spec_split_ws(s.skip(e))
    }
}

#[via_fn]
proof fn spec_split_ws_decreases(s: Seq<char>) {
    if s.len() > 0 && !is_space(s[0]) {
        lemma_find_ws_bounds(s);
        assert(find_ws(s) >= 1);
    }
}

/// Split a run command on whitespace.  This is the backward-compatible
/// parsing of legacy commands; it does not honor quoting.
pub fn split_command(s: &str) -> (r: Vec<String>)
    ensures
        r@.map_values(|p: String| p@) == spec_split_ws(s@),
{
    let n: usize = s.unicode_len();
    let mut out: Vec<String> = Vec::new();
    let mut i: usize = 0;
    proof {
        assert(s@.skip(0) =~= s@);
        assert(out@.map_values(|p: String| p@) + spec_split_ws(s@) =~= spec_split_ws(s@));
    }
    while i < n
        invariant
            i <= n,
            n == s@.len(),
            out@.map_values(|p: String| p@) + spec_split_ws(s@.skip(i as int)) == spec_split_ws(
                s@,
            ),
        decreases n - i,
    {
        let c: char = s.get_char(i);
        if c == ' ' || c == '\t' {
            proof {
                assert(s@.skip(i as int)[0] == s@[i as int]);
                assert(s@.skip(i as int).drop_first() =~= s@.skip(i + 1));
            }
            i = i + 1;
        } else {
            let mut e: usize = i + 1;
            while e < n && s.get_char(e) != ' ' && s.get_char(e) != '\t'
                invariant
                    i < e <= n,
                    n == s@.len(),
                    forall|k: int| i <= k < e ==> !is_space(s@[k]),
                decreases n - e,
            {
                e = e + 1;
            }
            proof {
                let t = s@.skip(i as int);
                assert(forall|k: int| 0 <= k < e - i ==> t[k] == s@[i + k]);
                if e < n {
                    assert(t[e - i] == s@[e as int]);
                }
                lemma_find_ws_is(t, e - i);
                assert(t.take(e - i) =~= s@.subrange(i as int, e as int));
                assert(t.skip(e - i) =~= s@.skip(e as int));
            }
            let word: String = s.substring_char(i, e).to_owned();
            out.push(word);
            proof {
                let ov = out@.map_values(|p: String| p@);
                assert(ov =~= out@.drop_last().map_values(|p: String| p@).push(
                    s@.subrange(i as int, e as int),
                ));
                assert(out@.drop_last().map_values(|p: String| p@) + (seq![
                    s@.subrange(i as int, e as int),
                ] + spec_split_ws(s@.skip(e as int))) =~= ov + spec_split_ws(s@.skip(e as int)));
            }
            i = e;
        }
    }
    proof {
        assert(s@.skip(n as int).len() == 0);
        assert(out@.map_values(|p: String| p@) + Seq::<Seq<char>>::empty() =~= out@.map_values(
            |p: String| p@,
        ));
    }
    out
}

/// The child process of a local-interpreter run: program, arguments, and
/// the two environment values scoped to the child alone.
#[derive(Debug)]
pub struct ExecPlan {
    pub program: String,
    pub args: Vec<String>,
    /// The search-path value: the environment's executable directory,
    /// then the current path.
    pub path_env: String,
    /// The environment-marker value: the environment directory itself.
    pub virtual_env: String,
}

/// Build the child process of a venv run: the run command's first word is
/// the program, its remaining words then the user's arguments follow, the
/// venv's executable directory is prepended to the search path, and the
/// environment marker names the venv.  A missing or empty run command is
/// an execution error.
pub fn venv_exec_plan(
    venv_path: &str,
    current_path: &str,
    run_command: Option<&String>,
    user_args: &Vec<String>,
) -> (r: Result<ExecPlan, TuxBoxError>)
    ensures
        match run_command {
            Option::None => r matches Err(e) && (e matches TuxBoxError::ExecutionError(m) && m@
                == "No run command specified for this tool"@),
            Option::Some(rc) => {
                let parts = spec_split_ws(rc@);
                if parts.len() == 0 {
                    r matches Err(e) && (e matches TuxBoxError::ExecutionError(m) && m@
                        == "Empty run command"@)
                } else {
                    r matches Ok(plan) && plan.program@ == parts[0] && plan.args@.map_values(
                        |p: String| p@,
                    ) == parts.drop_first() + user_args@.map_values(|p: String| p@)
                        && plan.path_env@ == venv_path@ + "/bin:"@ + current_path@
                        && plan.virtual_env@ == venv_path@
                }
            },
        },
{
    let rc: &String = match run_command {
        Option::Some(rc) => rc,
        Option::None => {
            return Err(
                TuxBoxError::ExecutionError(
                    String::from_str("No run command specified for this tool"),
                ),
            );
        },
    };
    let mut parts: Vec<String> = split_command(rc.as_str());
    if parts.len() == 0 {
        return Err(TuxBoxError::ExecutionError(String::from_str("Empty run command")));
    }
    let ghost pv = spec_split_ws(rc@);
    let program: String = parts.remove(0);
    let n: usize = user_args.len();
    let mut i: usize = 0;
    proof {
        assert(parts@.map_values(|p: String| p@) =~= pv.drop_first());
        let uv = user_args@.map_values(|p: String| p@);
        assert(parts@.map_values(|p: String| p@) + uv.take(0) =~= pv.drop_first());
    }
    while i < n
        invariant
            i <= n,
            n == user_args@.len(),
            parts@.map_values(|p: String| p@) == pv.drop_first() + user_args@.map_values(
                |p: String| p@,
            ).take(i as int),
        decreases n - i,
    {
        parts.push(user_args[i].clone());
        proof {
            let uv = user_args@.map_values(|p: String| p@);
            assert(parts@.map_values(|p: String| p@) =~= parts@.drop_last().map_values(
                |p: String| p@,
            ).push(uv[i as int]));
            assert(uv.take(i + 1) =~= uv.take(i as int).push(uv[i as int]));
            assert((pv.drop_first() + uv.take(i as int)).push(uv[i as int]) =~= pv.drop_first()
                + uv.take(i as int).push(uv[i as int]));
        }
        i = i + 1;
    }
    proof {
        let uv = user_args@.map_values(|p: String| p@);
        assert(uv.take(n as int) =~= uv);
    }
    let mut path_env: String = venv_path.to_owned();
    path_env.append("/bin:");
    path_env.append(current_path);
    proof {
        assert(path_env@ =~= venv_path@ + "/bin:"@ + current_path@);
    }
    Ok(
        ExecPlan {
            program,
            args: parts,
            path_env,
            virtual_env: venv_path.to_owned(),
        },
    )
}

/// How this run executes the tool.
#[derive(Debug, Clone, Copy, PartialEq, Eq, Structural)]
pub enum RunStrategy {
    /// Containerised execution.
    DockerRun,
    /// Local virtual-environment execution.
    VenvRun,
}

/// Dispatch on the detected environment: a container engine serves every
/// tool; without one, only interpreter tools can run locally — anything
/// else needs the engine installed.
pub fn choose_execution(env: ExecutionEnvironment, tool_type: Option<&String>) -> (r: Result<
    RunStrategy,
    TuxBoxError,
>)
    ensures
        env is Docker ==> r == Ok::<_, TuxBoxError>(RunStrategy::DockerRun),
        env is LocalVenv && (tool_type matches Option::Some(t) && t@ == "python"@) ==> r == Ok::<
            _,
            TuxBoxError,
        >(RunStrategy::VenvRun),
        env is LocalVenv && !(tool_type matches Option::Some(t) && t@ == "python"@) ==> (r matches
            Err(e) && (e matches TuxBoxError::ExecutionError(m) && m@ == "Tool type '"@ + (
        match tool_type {
            Option::Some(t) => t@,
            Option::None => "unknown"@,
        }) + "' requires Docker for execution. Please install Docker."@)),
{
    match env {
        ExecutionEnvironment::Docker => Ok(RunStrategy::DockerRun),
        ExecutionEnvironment::LocalVenv => {
            let is_python: bool = match tool_type {
                Option::Some(t) => str_eq_str(t.as_str(), "python"),
                Option::None => false,
            };
            if is_python {
                Ok(RunStrategy::VenvRun)
            } else {
                let mut m = String::from_str("Tool type '");
                match tool_type {
                    Option::Some(t) => m.append(t.as_str()),
                    Option::None => m.append("unknown"),
                }
                m.append("' requires Docker for execution. Please install Docker.");
                Err(TuxBoxError::ExecutionError(m))
            }
        },
    }
}

/// How a tool repository is cloned.
#[derive(Debug, Clone, Copy, PartialEq, Eq, Structural)]
pub enum CloneAction {
    /// The clone directory already exists: nothing to do.
    AlreadyCloned,
    /// An SSH URL: the system client handles keys; use it directly.
    SystemGit,
    /// Other URLs: the native client with proxy detection first, the
    /// system client as fallback.
    NativeThenSystemGit,
}

/// Decide how to clone: skip an existing clone; SSH URLs go straight to
/// the system client.
pub fn clone_decision(repo_url: &str, already_cloned: bool) -> (r: CloneAction)
    ensures
        already_cloned ==> r == CloneAction::AlreadyCloned,
        !already_cloned && (spec_starts_with(repo_url@, "git@"@) || spec_starts_with(
            repo_url@,
            "ssh://"@,
        )) ==> r == CloneAction::SystemGit,
        !already_cloned && !(spec_starts_with(repo_url@, "git@"@) || spec_starts_with(
            repo_url@,
            "ssh://"@,
        )) ==> r == CloneAction::NativeThenSystemGit,
{
    if already_cloned {
        CloneAction::AlreadyCloned
    } else if str_starts_with(repo_url, "git@") || str_starts_with(repo_url, "ssh://") {
        CloneAction::SystemGit
    } else {
        CloneAction::NativeThenSystemGit
    }
}

/// The provisioning fast path: a loaded venv record skips setup and names
/// the environment to use; a record without a venv block cannot drive a
/// venv run; no record means full provisioning.
#[derive(Debug)]
pub enum VenvRunPrep {
    /// Use the recorded environment; all setup is skipped.
    UseRecorded { venv_path: String },
    /// No valid record: resolve, create, install, then record.
    Provision,
}

/// Decide the venv fast path from the loaded record.
pub fn venv_run_prep(record: Option<ToolState>) -> (r: Result<VenvRunPrep, TuxBoxError>)
    ensures
        match record {
            Option::Some(t) => match t.venv {
                Option::Some(v) => r matches Ok(p) && (p matches VenvRunPrep::UseRecorded {
                    venv_path,
                } && venv_path == v.path),
                Option::None => r matches Err(e) && (e matches TuxBoxError::ExecutionError(m)
                    && m@ == "State file missing venv entry"@),
            },
            Option::None => r matches Ok(p) && p is Provision,
        },
{
    match record {
        Option::Some(t) => match t.venv {
            Option::Some(v) => Ok(VenvRunPrep::UseRecorded { venv_path: v.path }),
            Option::None => Err(
                TuxBoxError::ExecutionError(String::from_str("State file missing venv entry")),
            ),
        },
        Option::None => Ok(VenvRunPrep::Provision),
    }
}

/// Before execution, the provisioned interpreter's actual version must
/// still meet the tool's requirement; a shortfall is fatal and names both
/// versions.
pub fn verify_interpreter_version(required: (u32, u32), actual: (u32, u32)) -> (r: Result<
    (),
    TuxBoxError,
>)
    ensures
        crate::version::version_geq(actual, required) ==> r is Ok,
        !crate::version::version_geq(actual, required) ==> (r matches Err(e) && (e matches
            TuxBoxError::RuntimeUnavailable(m) && m@ == "The environment's Python is "@
            + dec_digits(actual.0 as int) + "."@ + dec_digits(actual.1 as int)
            + " but the tool requires "@ + dec_digits(required.0 as int) + "."@ + dec_digits(
            required.1 as int,
        ) + " or newer"@)),
{
    let meets: bool = actual.0 > required.0 || (actual.0 == required.0 && actual.1 >= required.1);
    if meets {
        Ok(())
    } else {
        let mut m = String::from_str("The environment's Python is ");
        m.append(crate::python::u32_to_string(actual.0).as_str());
        m.append(".");
        m.append(crate::python::u32_to_string(actual.1).as_str());
        m.append(" but the tool requires ");
        m.append(crate::python::u32_to_string(required.0).as_str());
        m.append(".");
        m.append(crate::python::u32_to_string(required.1).as_str());
        m.append(" or newer");
        proof {
            assert(m@ =~= "The environment's Python is "@ + dec_digits(actual.0 as int) + "."@
                + dec_digits(actual.1 as int) + " but the tool requires "@ + dec_digits(
                required.0 as int,
            ) + "."@ + dec_digits(required.1 as int) + " or newer"@);
        }
        Err(TuxBoxError::RuntimeUnavailable(m))
    }
}

/// The built-in fallback table, consulted when no registry defines the
/// name: the definitions kept for pre-registry compatibility.
pub fn get_hardcoded_tool_config(tool_name: &str) -> (r: Result<ToolConfig, TuxBoxError>)
    ensures
        tool_name@ == "sshmenuc"@ ==> (r matches Ok(t) && t.name@ == "sshmenuc"@ && t.repo@
            == "https://github.com/disoardi/sshmenuc"@ && (t.branch matches Some(b) && b@
            == "main"@) && (t.version matches Some(v) && v@ == "1.1.0"@) && (t.tool_type matches
        Some(ty) && ty@ == "python"@) && t.isolation is None && (t.commands matches Some(c) && (
        c.setup matches Some(su) && su@ == "pip3 install -r requirements.txt"@) && c.run@
            == "python3 -m sshmenuc"@) && t.python_version is None),
        tool_name@ == "test-tool"@ ==> (r matches Ok(t) && t.name@ == "test-tool"@ && t.repo@
            == "https://github.com/your-username/test-tool"@ && t.branch is None && (t.version
        matches Some(v) && v@ == "0.1.0"@) && (t.tool_type matches Some(ty) && ty@ == "bash"@)
            && t.isolation is None && (t.commands matches Some(c) && c.setup is None && c.run@
            == "./run.sh"@) && t.python_version is None),
        tool_name@ != "sshmenuc"@ && tool_name@ != "test-tool"@ ==> (r matches Err(e) && (e
            matches TuxBoxError::ToolNotFound(n) && n@ == tool_name@)),
{
    proof {
        reveal_strlit("sshmenuc");
        reveal_strlit("test-tool");
        assert("sshmenuc"@.len() == 8);
        assert("test-tool"@.len() == 9);
    }
    if str_eq_str(tool_name, "sshmenuc") {
        Ok(
            ToolConfig {
                name: String::from_str("sshmenuc"),
                repo: String::from_str("https://github.com/disoardi/sshmenuc"),
                branch: Option::Some(String::from_str("main")),
                version: Option::Some(String::from_str("1.1.0")),
                tool_type: Option::Some(String::from_str("python")),
                isolation: Option::None,
                commands: Option::Some(
                    Commands {
                        setup: Option::Some(String::from_str("pip3 install -r requirements.txt")),
                        run: String::from_str("python3 -m sshmenuc"),
                    },
                ),
                python_version: Option::None,
            },
        )
    } else if str_eq_str(tool_name, "test-tool") {
        Ok(
            ToolConfig {
                name: String::from_str("test-tool"),
                repo: String::from_str("https://github.com/your-username/test-tool"),
                branch: Option::None,
                version: Option::Some(String::from_str("0.1.0")),
                tool_type: Option::Some(String::from_str("bash")),
                isolation: Option::None,
                commands: Option::Some(
                    Commands { setup: Option::None, run: String::from_str("./run.sh") },
                ),
                python_version: Option::None,
            },
        )
    } else {
        Err(TuxBoxError::ToolNotFound(tool_name.to_owned()))
    }
}

} // verus!
