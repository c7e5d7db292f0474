//! The command parser: tokenizing the redirection-stripped command
//! text and classifying it as a builtin, an external invocation, or an
//! unresolved line.

use vstd::prelude::*;
use crate::lookup::find_in_path;
use crate::redirect::{
    extract_redirection, extract_spec, redirect_view, shell_tokens, split_tokens, Redirect,
};
use crate::text::{chars_of, str_eq, string_from_chars, trim_spec, trim_string};

verus! {

/// A parsed input line: exactly one variant per line.
#[derive(Debug, PartialEq, Eq)]
pub enum Command {
    /// `exit`: stop the interactive loop.
    ExitCommand,
    /// `pwd`: print the working directory.
    PwdCommand { redirect: Redirect, stderr_redirect: Redirect },
    /// `cd <path>`: change the working directory.
    CdCommand { path: String },
    /// `echo <words...>`: print the words joined by single spaces.
    EchoCommand { display_string: String, redirect: Redirect, stderr_redirect: Redirect },
    /// `type <name>`: describe what `name` resolves to.
    TypeCommand { command_name: String, redirect: Redirect, stderr_redirect: Redirect },
    /// A resolved external program with its arguments.
    ExternalCommand {
        program: String,
        args: Vec<String>,
        redirect: Redirect,
        stderr_redirect: Redirect,
    },
    /// A line that names nothing runnable; carries the original raw
    /// input line.
    CommandNotFound { input: String },
}

/// The mathematical value of a parsed command.
pub enum CmdModel {
    Exit,
    Pwd { so: Option<(Seq<char>, bool)>, se: Option<(Seq<char>, bool)> },
    Cd { path: Seq<char> },
    Echo { display: Seq<char>, so: Option<(Seq<char>, bool)>, se: Option<(Seq<char>, bool)> },
    Type { name: Seq<char>, so: Option<(Seq<char>, bool)>, se: Option<(Seq<char>, bool)> },
    External {
        program: Seq<char>,
        args: Seq<Seq<char>>,
        so: Option<(Seq<char>, bool)>,
        se: Option<(Seq<char>, bool)>,
    },
    NotFound { input: Seq<char> },
}

/// The model a command value stands for.
pub open spec fn cmd_model(c: Command) -> CmdModel {
    match c {
        Command::ExitCommand => CmdModel::Exit,
        Command::PwdCommand { redirect, stderr_redirect } => CmdModel::Pwd {
            so: redirect_view(redirect),
            se: redirect_view(stderr_redirect),
        },
        Command::CdCommand { path } => CmdModel::Cd { path: path@ },
        Command::EchoCommand { display_string, redirect, stderr_redirect } => CmdModel::Echo {
            display: display_string@,
            so: redirect_view(redirect),
            se: redirect_view(stderr_redirect),
        },
        Command::TypeCommand { command_name, redirect, stderr_redirect } => CmdModel::Type {
            name: command_name@,
            so: redirect_view(redirect),
            se: redirect_view(stderr_redirect),
        },
        Command::ExternalCommand { program, args, redirect, stderr_redirect } => CmdModel::External {
            program: program@,
            args: args@.map_values(|t: String| t@),
            so: redirect_view(redirect),
            se: redirect_view(stderr_redirect),
        },
        Command::CommandNotFound { input } => CmdModel::NotFound { input: input@ },
    }
}

/// The names the interpreter implements itself.
pub open spec fn is_builtin_name(s: Seq<char>) -> bool {
    s == "echo"@ || s == "exit"@ || s == "type"@ || s == "pwd"@ || s == "cd"@
}

/// Whether `name` is one of the builtin command names.
pub fn is_builtin(name: &str) -> (r: bool)
    ensures
        r == is_builtin_name(name@),
{
    str_eq(name, "echo") || str_eq(name, "exit") || str_eq(name, "type") || str_eq(name, "pwd")
        || str_eq(name, "cd")
}

/// The words joined by single spaces.
pub open spec fn join_with_spaces(parts: Seq<Seq<char>>) -> Seq<char>
    decreases parts.len(),
{
    if parts.len() == 0 {
        Seq::empty()
    } else if parts.len() == 1 {
        parts[0]
    } else {
        parts[0] + seq![' '] + join_with_spaces(parts.drop_first())
    }
}

/// The views of a token list.
pub open spec fn token_views(parts: Seq<String>) -> Seq<Seq<char>> {
    parts.map_values(|t: String| t@)
}

/// The characters of the tokens from `from` on, joined by single spaces.
fn join_from(parts: &Vec<String>, from: usize) -> (r: Vec<char>)
    requires
        from <= parts@.len(),
    ensures
        r@ == join_with_spaces(token_views(parts@).subrange(from as int, parts@.len() as int)),
    decreases parts@.len() - from,
{
    let ghost m = token_views(parts@);
    let n = parts.len();
    if from >= n {
        proof {
            assert(m.subrange(from as int, n as int) =~= Seq::<Seq<char>>::empty());
        }
        Vec::new()
    } else if from == n - 1 {
        let r = chars_of(parts[from].as_str());
        proof {
            assert(m.subrange(from as int, n as int)[0] == parts@[from as int]@);
        }
        r
    } else {
        let mut head = chars_of(parts[from].as_str());
        head.push(' ');
        let mut tail = join_from(parts, from + 1);
        head.append(&mut tail);
        proof {
            let sub = m.subrange(from as int, n as int);
            assert(sub[0] == parts@[from as int]@);
            assert(sub.drop_first() =~= m.subrange(from + 1, n as int));
            assert(head@ =~= sub[0] + seq![' '] + join_with_spaces(sub.drop_first()));
        }
        head
    }
}

/// How a token list classifies, given the raw line it came from, the
/// extracted targets, and whether external lookup resolves the first
/// word.  The first word picks the builtin; `cd` and `type` without
/// their argument fall through to the external lookup; an unresolved
/// name yields the unresolved variant carrying the raw line.
pub open spec fn classify_model(
    raw: Seq<char>,
    parts: Seq<Seq<char>>,
    so: Option<(Seq<char>, bool)>,
    se: Option<(Seq<char>, bool)>,
    found: bool,
) -> CmdModel {
    if parts.len() == 0 {
        CmdModel::NotFound { input: raw }
    } else {
        let head = parts[0];
        if head == "exit"@ {
            CmdModel::Exit
        } else if head == "pwd"@ {
            CmdModel::Pwd { so: so, se: se }
        } else if head == "cd"@ && parts.len() > 1 {
            CmdModel::Cd { path: parts[1] }
        } else if head == "echo"@ {
            CmdModel::Echo { display: join_with_spaces(parts.drop_first()), so: so, se: se }
        } else if head == "type"@ && parts.len() > 1 {
            CmdModel::Type { name: parts[1], so: so, se: se }
        } else if found {
            CmdModel::External { program: head, args: parts.drop_first(), so: so, se: se }
        } else {
            CmdModel::NotFound { input: raw }
        }
    }
}

/// What parsing an input line yields when external lookup answers
/// `found` for a fallthrough first word.
pub open spec fn parse_model(input: Seq<char>, found: bool) -> CmdModel {
    let t = trim_spec(input);
    if t.len() == 0 {
        CmdModel::NotFound { input: input }
    } else {
        let ex = extract_spec(t);
        match shell_tokens(ex.0) {
            Some(parts) => classify_model(input, parts, ex.1, ex.2, found),
            None => CmdModel::NotFound { input: input },
        }
    }
}

/// Classifies a token list; `found` stands for the external lookup's
/// answer and decides only the fallthrough case.
pub fn classify(
    raw: String,
    parts: Vec<String>,
    redirect: Redirect,
    stderr_redirect: Redirect,
    found: bool,
) -> (c: Command)
    ensures
        cmd_model(c) == classify_model(
            raw@,
            token_views(parts@),
            redirect_view(redirect),
            redirect_view(stderr_redirect),
            found,
        ),
{
    let ghost m = token_views(parts@);
    if parts.len() == 0 {
        return Command::CommandNotFound { input: raw };
    }
    proof {
        assert(m[0] == parts@[0]@);
    }
    if str_eq(parts[0].as_str(), "exit") {
        return Command::ExitCommand;
    }
    if str_eq(parts[0].as_str(), "pwd") {
        return Command::PwdCommand { redirect, stderr_redirect };
    }
    if str_eq(parts[0].as_str(), "cd") && parts.len() > 1 {
        proof {
            assert(m[1] == parts@[1]@);
        }
        return Command::CdCommand { path: parts[1].clone() };
    }
    if str_eq(parts[0].as_str(), "echo") {
        let joined = join_from(&parts, 1);
        let display_string = string_from_chars(joined.as_slice());
        proof {
            assert(m.subrange(1, m.len() as int) =~= m.drop_first());
        }
        return Command::EchoCommand { display_string, redirect, stderr_redirect };
    }
    if str_eq(parts[0].as_str(), "type") && parts.len() > 1 {
        proof {
            assert(m[1] == parts@[1]@);
        }
        return Command::TypeCommand {
            command_name: parts[1].clone(),
            redirect,
            stderr_redirect,
        };
    }
    if found {
        let program = parts[0].clone();
        let mut args: Vec<String> = Vec::new();
        let mut i: usize = 1;
        while i < parts.len()
            invariant
                1 <= i <= parts@.len(),
                args@.len() == i - 1,
                forall|j: int| 0 <= j < args@.len() ==> args@[j]@ == parts@[j + 1]@,
            decreases parts@.len() - i,
        {
            args.push(parts[i].clone());
            i += 1;
        }
        proof {
            assert(token_views(args@) =~= m.drop_first());
        }
        return Command::ExternalCommand { program, args, redirect, stderr_redirect };
    }
    Command::CommandNotFound { input: raw }
}

impl Command {
    /// Parses one raw input line into a typed command.  The result is
    /// the parse model of the line for some answer of the external
    /// lookup; the lookup decides only lines whose first word names no
    /// builtin form.  An unresolved line comes back carrying the raw
    /// input itself.
    pub fn from_input(input: &str) -> (c: Command)
        ensures
            cmd_model(c) == parse_model(input@, true) || cmd_model(c) == parse_model(
                input@,
                false,
            ),
    {
        let trimmed = trim_string(input);
        if trimmed.as_str().is_empty() {
            return Command::CommandNotFound { input: input.to_owned() };
        }
        let extracted = extract_redirection(trimmed.as_str());
        let text = extracted.0;
        let redirect = extracted.1;
        let stderr_redirect = extracted.2;
        let text_chars = chars_of(text.as_str());
        match split_tokens(text_chars.as_slice()) {
            None => Command::CommandNotFound { input: input.to_owned() },
            Some(parts) => {
                if parts.len() == 0 {
                    return Command::CommandNotFound { input: input.to_owned() };
                }
                proof {
                    assert(token_views(parts@)[0] == parts@[0]@);
                }
                let head = parts[0].as_str();
                let direct = str_eq(head, "exit") || str_eq(head, "pwd") || str_eq(head, "echo")
                    || (str_eq(head, "cd") && parts.len() > 1) || (str_eq(head, "type")
                    && parts.len() > 1);
                let found = if direct {
                    false
                } else {
                    find_in_path(parts[0].as_str()).is_some()
                };
                classify(input.to_owned(), parts, redirect, stderr_redirect, found)
            },
        }
    }
}

} // verus!
