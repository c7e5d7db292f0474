//! The dispatcher: maps a typed command to the action the interactive
//! loop must perform, and computes every message and output string.
//! The actions name file targets and processes; the surrounding
//! program opens, writes and spawns as the action says.

use vstd::prelude::*;
use vstd::string::StringExecFns;
use crate::command::{cmd_model, is_builtin, is_builtin_name, CmdModel, Command};
use crate::lookup::find_in_path;
use crate::redirect::{redirect_view, Redirect};
use crate::text::{chars_of, string_from_chars};

verus! {

/// What the interactive loop must do for one parsed command.
#[derive(Debug, PartialEq, Eq)]
pub enum Action {
    /// Stop the loop; nothing is printed.
    Stop,
    /// Write the current working directory, newline-terminated, to the
    /// stdout target (or the inherited stream), and materialize the
    /// stderr target file with no content.
    PrintCwd { redirect: Redirect, stderr_redirect: Redirect },
    /// Change the working directory to `path` after tilde expansion;
    /// on failure print `cd_error_message` to the inherited stream.
    ChangeDir { path: String },
    /// Write `text`, newline-terminated, to the stdout target (or the
    /// inherited stream), and materialize the stderr target file.
    Emit { text: String, redirect: Redirect, stderr_redirect: Redirect },
    /// Write `get_type_output(name)` the same way `Emit` writes.
    Describe { name: String, redirect: Redirect, stderr_redirect: Redirect },
    /// Resolve `program`, open both targets (overwrite truncates,
    /// append extends), and only if both opened run the process with
    /// `args` and the streams attached; wait and discard its status.
    Spawn { program: String, args: Vec<String>, redirect: Redirect, stderr_redirect: Redirect },
    /// Write `line`, newline-terminated, to the inherited stream.
    Report { line: String },
}

/// The mathematical value of an action.
pub enum ActModel {
    Stop,
    PrintCwd { so: Option<(Seq<char>, bool)>, se: Option<(Seq<char>, bool)> },
    ChangeDir { path: Seq<char> },
    Emit { text: Seq<char>, so: Option<(Seq<char>, bool)>, se: Option<(Seq<char>, bool)> },
    Describe { name: Seq<char>, so: Option<(Seq<char>, bool)>, se: Option<(Seq<char>, bool)> },
    Spawn {
        program: Seq<char>,
        args: Seq<Seq<char>>,
        so: Option<(Seq<char>, bool)>,
        se: Option<(Seq<char>, bool)>,
    },
    Report { line: Seq<char> },
}

/// The model an action value stands for.
pub open spec fn act_model(a: Action) -> ActModel {
    match a {
        Action::Stop => ActModel::Stop,
        Action::PrintCwd { redirect, stderr_redirect } => ActModel::PrintCwd {
            so: redirect_view(redirect),
            se: redirect_view(stderr_redirect),
        },
        Action::ChangeDir { path } => ActModel::ChangeDir { path: path@ },
        Action::Emit { text, redirect, stderr_redirect } => ActModel::Emit {
            text: text@,
            so: redirect_view(redirect),
            se: redirect_view(stderr_redirect),
        },
        Action::Describe { name, redirect, stderr_redirect } => ActModel::Describe {
            name: name@,
            so: redirect_view(redirect),
            se: redirect_view(stderr_redirect),
        },
        Action::Spawn { program, args, redirect, stderr_redirect } => ActModel::Spawn {
            program: program@,
            args: args@.map_values(|t: String| t@),
            so: redirect_view(redirect),
            se: redirect_view(stderr_redirect),
        },
        Action::Report { line } => ActModel::Report { line: line@ },
    }
}

/// The action each command variant calls for: `exit` stops the loop,
/// every builtin becomes its output or directory change, an external
/// command becomes a spawn, and an unresolved line is reported as not
/// found on the inherited stream.
pub open spec fn execute_model(c: CmdModel) -> ActModel {
    match c {
        CmdModel::Exit => ActModel::Stop,
        CmdModel::Pwd { so, se } => ActModel::PrintCwd { so: so, se: se },
        CmdModel::Cd { path } => ActModel::ChangeDir { path: path },
        CmdModel::Echo { display, so, se } => ActModel::Emit { text: display, so: so, se: se },
        CmdModel::Type { name, so, se } => ActModel::Describe { name: name, so: so, se: se },
        CmdModel::External { program, args, so, se } => ActModel::Spawn {
            program: program,
            args: args,
            so: so,
            se: se,
        },
        CmdModel::NotFound { input } => ActModel::Report {
            line: input + ": command not found"@,
        },
    }
}

/// Consumes one typed command and returns the action it calls for.
pub fn execute(command: Command) -> (a: Action)
    ensures
        act_model(a) == execute_model(cmd_model(command)),
{
    match command {
        Command::ExitCommand => Action::Stop,
        Command::PwdCommand { redirect, stderr_redirect } => Action::PrintCwd {
            redirect,
            stderr_redirect,
        },
        Command::CdCommand { path } => Action::ChangeDir { path },
        Command::EchoCommand { display_string, redirect, stderr_redirect } => Action::Emit {
            text: display_string,
            redirect,
            stderr_redirect,
        },
        Command::TypeCommand { command_name, redirect, stderr_redirect } => Action::Describe {
            name: command_name,
            redirect,
            stderr_redirect,
        },
        Command::ExternalCommand { program, args, redirect, stderr_redirect } => Action::Spawn {
            program,
            args,
            redirect,
            stderr_redirect,
        },
        Command::CommandNotFound { input } => Action::Report {
            line: not_found_message(input.as_str()),
        },
    }
}

/// Whether the interactive loop goes on after this action: it stops
/// only on `Stop`.
pub fn should_continue(a: &Action) -> (r: bool)
    ensures
        r == !(act_model(*a) is Stop),
{
    match a {
        Action::Stop => false,
        _ => true,
    }
}

/// An external spawn goes ahead only when both stream targets opened;
/// a failed open aborts the spawn entirely.
pub fn spawn_allowed(stdout_ready: bool, stderr_ready: bool) -> (r: bool)
    ensures
        r == (stdout_ready && stderr_ready),
{
    stdout_ready && stderr_ready
}

/// The view of an optional string.
pub open spec fn opt_string_view(o: Option<String>) -> Option<Seq<char>> {
    match o {
        Some(s) => Some(s@),
        None => None,
    }
}

/// What describing `name` prints, given the external lookup's answer:
/// builtins are announced as such, a resolved name shows its path, an
/// unresolved one is not found.
pub open spec fn type_output_model(name: Seq<char>, lookup: Option<Seq<char>>) -> Seq<char> {
    if is_builtin_name(name) {
        name + " is a shell builtin"@
    } else {
        match lookup {
            Some(p) => name + " is "@ + p,
            None => name + ": not found"@,
        }
    }
}

/// The describe-command output, with the lookup's answer an argument.
pub fn type_output_with(command_name: &str, lookup: Option<String>) -> (r: String)
    ensures
        r@ == type_output_model(command_name@, opt_string_view(lookup)),
{
    let mut s = command_name.to_owned();
    if is_builtin(command_name) {
        s.append(" is a shell builtin");
    } else {
        match lookup {
            Some(p) => {
                s.append(" is ");
                s.append(p.as_str());
            },
            None => {
                s.append(": not found");
            },
        }
    }
    s
}

/// The describe-command output for `command_name`: the builtin answer
/// is fixed; otherwise the line depends on what the lookup returned.
pub fn get_type_output(command_name: &str) -> (r: String)
    ensures
        is_builtin_name(command_name@) ==> r@ == type_output_model(command_name@, None),
        exists|l: Option<Seq<char>>| r@ == type_output_model(command_name@, l),
{
    if is_builtin(command_name) {
        let r = type_output_with(command_name, None);
        proof {
            assert(r@ == type_output_model(command_name@, None));
        }
        r
    } else {
        let l = find_in_path(command_name);
        let ghost lv = opt_string_view(l);
        let r = type_output_with(command_name, l);
        proof {
            assert(r@ == type_output_model(command_name@, lv));
        }
        r
    }
}

/// A leading `~` replaced by the home directory, when one is known;
/// otherwise the path is kept as it is.
pub open spec fn expand_tilde_model(path: Seq<char>, home: Option<Seq<char>>) -> Seq<char> {
    if path.len() > 0 && path[0] == '~' && home is Some {
        home->Some_0 + path.drop_first()
    } else {
        path
    }
}

/// Expands a leading `~` of `path` to `home`, when `home` is known.
pub fn expand_tilde(path: &str, home: Option<String>) -> (r: String)
    ensures
        r@ == expand_tilde_model(path@, opt_string_view(home)),
{
    let cs = chars_of(path);
    if cs.len() > 0 && cs[0] == '~' {
        match home {
            Some(h) => {
                let mut out = chars_of(h.as_str());
                let mut i: usize = 1;
                while i < cs.len()
                    invariant
                        1 <= i <= cs@.len(),
                        out@ == h@ + cs@.subrange(1, i as int),
                    decreases cs@.len() - i,
                {
                    out.push(cs[i]);
                    proof {
                        assert(out@ =~= h@ + cs@.subrange(1, i + 1));
                    }
                    i += 1;
                }
                proof {
                    assert(cs@.subrange(1, cs@.len() as int) =~= path@.drop_first());
                }
                string_from_chars(out.as_slice())
            },
            None => path.to_owned(),
        }
    } else {
        path.to_owned()
    }
}

/// The report for an unresolved input line.
pub fn not_found_message(input: &str) -> (r: String)
    ensures
        r@ == input@ + ": command not found"@,
{
    let mut s = input.to_owned();
    s.append(": command not found");
    s
}

/// The report for a working-directory change that failed.
pub fn cd_error_message(path: &str) -> (r: String)
    ensures
        r@ == "cd: "@ + path@ + ": No such file or directory"@,
{
    let mut s: String = "cd: ".to_owned();
    s.append(path);
    s.append(": No such file or directory");
    s
}

/// The report for a stdout redirection target that could not be opened.
pub fn open_failure_message(path: &str, error: &str) -> (r: String)
    ensures
        r@ == "Failed to create file "@ + path@ + ": "@ + error@,
{
    let mut s: String = "Failed to create file ".to_owned();
    s.append(path);
    s.append(": ");
    s.append(error);
    s
}

/// The report for a stderr redirection target that could not be opened.
pub fn stderr_open_failure_message(path: &str, error: &str) -> (r: String)
    ensures
        r@ == "Failed to create stderr file "@ + path@ + ": "@ + error@,
{
    let mut s: String = "Failed to create stderr file ".to_owned();
    s.append(path);
    s.append(": ");
    s.append(error);
    s
}

/// The report for an external program that could not be started.
pub fn spawn_failure_message(program: &str, error: &str) -> (r: String)
    ensures
        r@ == program@ + ": execution failed: "@ + error@,
{
    let mut s = program.to_owned();
    s.append(": execution failed: ");
    s.append(error);
    s
}

} // verus!
