use vstd::prelude::*;
use vstd::string::*;
use crate::platform::{TargetOs, Platform};
use crate::install::{
    EntryKind, result_view, spec_lib_path, spec_python_dir, spec_lib_lookup, spec_python_dir_lookup,
    spec_tool_lookup, lib_path, python_dir, get_lib_path, get_python_dir, get_tool_path,
};
use crate::command::{EnvRequest, ResourceKind};

verus! {

/// Where the resource `name` of kind `kind` lies in the installation `home`.
pub open spec fn spec_resource_path(os: TargetOs, home: Seq<char>, kind: ResourceKind, name: Seq<char>) -> Seq<char> {
    match kind {
        ResourceKind::Library => spec_lib_path(os, home, name),
        ResourceKind::PythonDir => spec_python_dir(os, home, name),
    }
}

/// The outcome of locating the resource `name` of kind `kind`, where `entry`
/// is what its path names.
pub open spec fn spec_resource_lookup(
    os: TargetOs,
    home: Result<Seq<char>, Seq<char>>,
    kind: ResourceKind,
    name: Seq<char>,
    entry: EntryKind,
) -> Result<Seq<char>, Seq<char>> {
    match kind {
        ResourceKind::Library => spec_lib_lookup(os, home, name, entry),
        ResourceKind::PythonDir => spec_python_dir_lookup(os, home, name, entry),
    }
}

/// Where the resource that `req` asks for lies in the installation `home`.
pub fn resource_path(os: TargetOs, home: &str, req: &EnvRequest) -> (path: String)
    ensures
        path@ == spec_resource_path(os, home@, req.kind, req.name@),
{
    match req.kind {
        ResourceKind::Library => lib_path(os, home, req.name.as_str()),
        ResourceKind::PythonDir => python_dir(os, home, req.name.as_str()),
    }
}

/// Locates the resource that `req` asks for: a library through
/// [`get_lib_path`], a Python directory through [`get_python_dir`]; `entry`
/// is what its path ([`resource_path`]) names.
pub fn resolve_request(os: TargetOs, home: &Result<String, String>, req: &EnvRequest, entry: EntryKind) -> (found: Result<String, String>)
    ensures
        result_view(found) == spec_resource_lookup(os, result_view(*home), req.kind, req.name@, entry),
{
    match req.kind {
        ResourceKind::Library => get_lib_path(os, home, req.name.as_str(), entry),
        ResourceKind::PythonDir => get_python_dir(os, home, req.name.as_str(), entry),
    }
}

/// The environment a tool is given and the warnings printed before it runs.
pub struct EnvPlan {
    pub vars: Vec<(String, String)>,
    pub warnings: Vec<String>,
}

/// The variables set from the first `n` requests: each one the user has not
/// set and whose resource was found, in order, pointing to that resource.
pub open spec fn spec_env_vars(
    reqs: Seq<(Seq<char>, ResourceKind, Seq<char>)>,
    provided: Seq<bool>,
    found: Seq<Result<Seq<char>, Seq<char>>>,
    n: nat,
) -> Seq<(Seq<char>, Seq<char>)>
    decreases n,
{
    if n == 0 {
        Seq::empty()
    } else {
        let earlier = spec_env_vars(reqs, provided, found, (n - 1) as nat);
        let i = n - 1;
        if !provided[i] && found[i] is Ok {
            earlier.push((reqs[i].0, found[i]->Ok_0))
        } else {
            earlier
        }
    }
}

/// The warnings from the first `n` requests: for each one the user has not
/// set and whose resource was not found, in order, why it was not found.
pub open spec fn spec_env_warnings(
    provided: Seq<bool>,
    found: Seq<Result<Seq<char>, Seq<char>>>,
    n: nat,
) -> Seq<Seq<char>>
    decreases n,
{
    if n == 0 {
        Seq::empty()
    } else {
        let earlier = spec_env_warnings(provided, found, (n - 1) as nat);
        let i = n - 1;
        if !provided[i] && found[i] is Err {
            earlier.push(found[i]->Err_0)
        } else {
            earlier
        }
    }
}

/// The lookups of a list, taken as character sequences.
pub open spec fn results_view(rs: Seq<Result<String, String>>) -> Seq<Result<Seq<char>, Seq<char>>> {
    rs.map_values(|r: Result<String, String>| result_view(r))
}

/// Decides the environment of a tool. For each request `reqs[i]`,
/// `provided[i]` says whether the user has set that variable already and
/// `found[i]` is the outcome of locating its resource. A variable the user
/// set is left alone; otherwise it is set to the resource found, or, when
/// none was found, the reason becomes a warning and the variable stays unset.
pub fn collect_env(reqs: &Vec<EnvRequest>, provided: &Vec<bool>, found: &Vec<Result<String, String>>) -> (plan: EnvPlan)
    requires
        provided.len() == reqs.len(),
        found.len() == reqs.len(),
    ensures
        plan.vars.deep_view() == spec_env_vars(
            reqs@.map_values(|r: EnvRequest| r@),
            provided@,
            results_view(found@),
            reqs.len() as nat,
        ),
        plan.warnings.deep_view() == spec_env_warnings(provided@, results_view(found@), reqs.len() as nat),
{
    let ghost rv = reqs@.map_values(|r: EnvRequest| r@);
    let ghost fv = results_view(found@);
    let mut vars: Vec<(String, String)> = Vec::new();
    let mut warnings: Vec<String> = Vec::new();
    let mut i: usize = 0;
    while i < reqs.len()
        invariant
            i <= reqs.len(),
            provided.len() == reqs.len(),
            found.len() == reqs.len(),
            rv == reqs@.map_values(|r: EnvRequest| r@),
            fv == results_view(found@),
            vars.deep_view() == spec_env_vars(rv, provided@, fv, i as nat),
            warnings.deep_view() == spec_env_warnings(provided@, fv, i as nat),
        decreases reqs.len() - i,
    {
        let ghost vars_before = vars.deep_view();
        let ghost warnings_before = warnings.deep_view();
        if !provided[i] {
            match &found[i] {
                Ok(path) => {
                    vars.push((reqs[i].var.clone(), path.clone()));
                    assert(vars.deep_view() =~= vars_before.push((rv[i as int].0, fv[i as int]->Ok_0)));
                },
                Err(e) => {
                    warnings.push(e.clone());
                    assert(warnings.deep_view() =~= warnings_before.push(fv[i as int]->Err_0));
                },
            }
        }
        i = i + 1;
    }
    EnvPlan { vars, warnings }
}

/// What the caller is to do to run a tool.
pub enum Launch {
    /// Print `message` to standard error and exit with `exit_code`.
    Abort { message: String, exit_code: i32 },
    /// Run `program` with `args`, adding the variables `env` to the
    /// inherited environment.
    Spawn { program: String, args: Vec<String>, env: Vec<(String, String)> },
}

/// Runs the tool for `tool_name` with `args` and the additional environment
/// variables `env_vars`: when the tool is not found in the installation
/// `home` (`tool_kind` being what its path names), the run is abandoned
/// with the lookup's message and exit status 1; otherwise the tool is
/// started with exactly these arguments and variables.
pub fn run_tool_with_env(
    platform: &Platform,
    home: &Result<String, String>,
    tool_name: &str,
    tool_kind: EntryKind,
    args: Vec<String>,
    env_vars: Vec<(String, String)>,
) -> (launch: Launch)
    ensures
        match spec_tool_lookup(*platform, result_view(*home), tool_name@, tool_kind) {
            Err(e) => launch matches Launch::Abort { message, exit_code } && message@ == e && exit_code == 1,
            Ok(p) => launch matches Launch::Spawn { program, args: a, env } && program@ == p && a == args
                && env == env_vars,
        },
{
    match get_tool_path(platform, home, tool_name, tool_kind) {
        Err(message) => Launch::Abort { message, exit_code: 1 },
        Ok(program) => Launch::Spawn { program, args, env: env_vars },
    }
}

/// Runs the tool for `tool_name` with `args` and no additional environment
/// variables; see [`run_tool_with_env`].
pub fn run_tool(
    platform: &Platform,
    home: &Result<String, String>,
    tool_name: &str,
    tool_kind: EntryKind,
    args: Vec<String>,
) -> (launch: Launch)
    ensures
        match spec_tool_lookup(*platform, result_view(*home), tool_name@, tool_kind) {
            Err(e) => launch matches Launch::Abort { message, exit_code } && message@ == e && exit_code == 1,
            Ok(p) => launch matches Launch::Spawn { program, args: a, env } && program@ == p && a == args
                && env@.len() == 0,
        },
{
    run_tool_with_env(platform, home, tool_name, tool_kind, args, Vec::new())
}

/// How a started tool ended, as far as the exit status goes.
pub enum ProcessOutcome {
    /// It exited with this code.
    Exited(i32),
    /// It was ended by this signal.
    Signaled(i32),
    /// Neither a code nor a signal is known.
    Unknown,
    /// It could not be started, for the reason given.
    NotStarted(String),
}

/// The exit status of the front end and what it prints to standard error.
pub struct Completion {
    pub exit_code: i32,
    pub message: Option<String>,
}

/// Maps how the tool ended to the front end's own exit status: a tool's
/// exit code is passed on, a signal `n` becomes `128 + n`, and otherwise the
/// status is 1; a tool that could not be started is also reported as
/// `Error executing tool: <reason>`.
pub fn tool_exit_status(outcome: &ProcessOutcome) -> (done: Completion)
    requires
        outcome matches ProcessOutcome::Signaled(n) ==> n <= i32::MAX - 128,
    ensures
        done.exit_code == match *outcome {
            ProcessOutcome::Exited(code) => code as int,
            ProcessOutcome::Signaled(n) => 128 + n,
            _ => 1int,
        },
        match *outcome {
            ProcessOutcome::NotStarted(reason) => done.message matches Some(m)
                && m@ == "Error executing tool: "@ + reason@,
            _ => done.message is None,
        },
{
    match outcome {
        ProcessOutcome::Exited(code) => Completion { exit_code: *code, message: None },
        ProcessOutcome::Signaled(n) => Completion { exit_code: 128 + *n, message: None },
        ProcessOutcome::Unknown => Completion { exit_code: 1, message: None },
        ProcessOutcome::NotStarted(reason) => {
            let mut m = "Error executing tool: ".to_owned();
            m.append(reason.as_str());
            Completion { exit_code: 1, message: Some(m) }
        },
    }
}

} // verus!
