//! Redirection extraction: scanning a raw line for unquoted `>` and
//! `>>` operators, recording the stdout/stderr targets they name, and
//! removing them from the command text.  Also the data describing the
//! file writes the dispatcher asks for, with their file-contents model.

use vstd::prelude::*;
use crate::text::{
    chars_of, is_space_char, string_from_chars, trim_end_chars, trim_end_spec, trim_spec,
    trim_start_chars, trim_start_spec,
};

verus! {

/// A redirection target: `None` keeps the inherited stream, otherwise
/// the destination path and whether the write appends.
pub type Redirect = Option<(String, bool)>;

/// The mathematical value of a redirection target.
pub open spec fn redirect_view(r: Redirect) -> Option<(Seq<char>, bool)> {
    match r {
        Some(p) => Some((p.0@, p.1)),
        None => None,
    }
}

/// The words of a command text under shell-style quoting, or `None` on
/// a quoting error.  What exactly the splitter does takes pages to
/// state; this name stands for its result, which depends on the
/// characters alone.
pub uninterp spec fn shell_tokens(s: Seq<char>) -> Option<Seq<Seq<char>>>;

/// `r` holds the same words as `m`, seen through the views.
pub open spec fn tokens_match(r: Option<Vec<String>>, m: Option<Seq<Seq<char>>>) -> bool {
    match (r, m) {
        (Some(v), Some(s)) => v@.map_values(|t: String| t@) == s,
        (None, None) => true,
        _ => false,
    }
}

/// Relies on `shlex::split`: shell-style word splitting of the given
/// characters, `None` on a quoting error; the result depends on the
/// characters alone and is named by `shell_tokens`.
#[verifier::external_body]
pub(crate) fn split_tokens(cs: &[char]) -> (r: Option<Vec<String>>)
    ensures
        tokens_match(r, shell_tokens(cs@)),
{
    let s: String = cs.iter().collect();
    shlex::split(&s)
}

/// The first word of `s` under shell-style splitting, if any.
pub open spec fn spec_first_token(s: Seq<char>) -> Option<Seq<char>> {
    match shell_tokens(s) {
        Some(parts) => if parts.len() > 0 {
            Some(parts[0])
        } else {
            None
        },
        None => None,
    }
}

/// First word of the characters under shell-style splitting, if any.
fn first_token_of(cs: &Vec<char>) -> (r: Option<String>)
    ensures
        match r {
            Some(t) => spec_first_token(cs@) == Some(t@),
            None => spec_first_token(cs@) is None,
        },
{
    match split_tokens(cs.as_slice()) {
        Some(parts) => {
            if parts.len() > 0 {
                let t = parts[0].clone();
                proof {
                    assert(parts@.map_values(|t: String| t@)[0] == parts@[0]@);
                }
                Some(t)
            } else {
                None
            }
        },
        None => None,
    }
}

/// The scanner's accumulated answer: the two targets, where the
/// command text ends, and whether any redirection was recorded.
pub struct ScanState {
    pub so: Option<(Seq<char>, bool)>,
    pub se: Option<(Seq<char>, bool)>,
    pub cmd_end: int,
    pub found: bool,
}

/// Builds a scanner state.
pub open spec fn scan_state(
    so: Option<(Seq<char>, bool)>,
    se: Option<(Seq<char>, bool)>,
    cmd_end: int,
    found: bool,
) -> ScanState {
    ScanState { so, se, cmd_end, found }
}

/// One left-to-right scan of `s` from position `i`, carrying the
/// single- and double-quote state.  An unquoted `>` (doubled for
/// append, with an immediately preceding `1` or `2` selecting the
/// stream) whose remainder yields a word records that word as the
/// stream's target — a later operator for the same stream wins — and
/// moves the command boundary to the earliest operator start.  A `>`
/// with no word after it is ignored.
pub open spec fn scan(s: Seq<char>, i: int, in_s: bool, in_d: bool, st: ScanState) -> ScanState
    decreases s.len() - i,
{
    if i < 0 || i >= s.len() {
        st
    } else {
        let c = s[i];
        if c == '\'' && !in_d {
            scan(s, i + 1, !in_s, in_d, st)
        } else if c == '"' && !in_s {
            scan(s, i + 1, in_s, !in_d, st)
        } else if c == '>' && !in_s && !in_d {
            let append = i + 1 < s.len() && s[i + 1] == '>';
            let next_i = if append {
                i + 2
            } else {
                i + 1
            };
            let is_stderr = i > 0 && s[i - 1] == '2';
            let start = if i > 0 && (s[i - 1] == '2' || s[i - 1] == '1') {
                i - 1
            } else {
                i
            };
            let rest = trim_start_spec(s.subrange(next_i, s.len() as int));
            match spec_first_token(rest) {
                Some(tok) => {
                    let st2 = ScanState {
                        so: if is_stderr {
                            st.so
                        } else {
                            Some((tok, append))
                        },
                        se: if is_stderr {
                            Some((tok, append))
                        } else {
                            st.se
                        },
                        cmd_end: if start < st.cmd_end {
                            start
                        } else {
                            st.cmd_end
                        },
                        found: true,
                    };
                    scan(s, next_i, in_s, in_d, st2)
                },
                None => scan(s, next_i, in_s, in_d, st),
            }
        } else {
            scan(s, i + 1, in_s, in_d, st)
        }
    }
}

/// The scan of a whole line, from a fresh state.
pub open spec fn full_scan(s: Seq<char>) -> ScanState {
    scan(s, 0, false, false, scan_state(None, None, s.len() as int, false))
}

/// What extracting redirections from `s` yields: the remaining command
/// text, the stdout target and the stderr target.  A line without a
/// recorded redirection comes back unchanged; otherwise the command
/// text is everything before the earliest operator, right-trimmed.
pub open spec fn extract_spec(s: Seq<char>) -> (Seq<char>, Option<(Seq<char>, bool)>, Option<
    (Seq<char>, bool),
>) {
    let st = full_scan(s);
    if !st.found {
        (s, None, None)
    } else {
        (trim_end_spec(s.subrange(0, st.cmd_end)), st.so, st.se)
    }
}

/// Strips redirection clauses from `input`: returns the command text
/// with every `[digit]>[>] path` clause removed and right-trimmed,
/// the extracted stdout target and the extracted stderr target.
pub fn extract_redirection(input: &str) -> (r: (String, Redirect, Redirect))
    ensures
        r.0@ == extract_spec(input@).0,
        redirect_view(r.1) == extract_spec(input@).1,
        redirect_view(r.2) == extract_spec(input@).2,
{
    let cs = chars_of(input);
    let n = cs.len();
    let mut i: usize = 0;
    let mut in_s = false;
    let mut in_d = false;
    let mut so: Redirect = None;
    let mut se: Redirect = None;
    let mut cmd_end: usize = n;
    let mut found = false;
    while i < n
        invariant
            i <= n,
            n == cs@.len(),
            cs@ == input@,
            cmd_end <= n,
            scan(cs@, i as int, in_s, in_d, scan_state(redirect_view(so), redirect_view(se), cmd_end as int, found))
                == full_scan(cs@),
        decreases n - i,
    {
        let c = cs[i];
        if c == '\'' && !in_d {
            in_s = !in_s;
            i += 1;
        } else if c == '"' && !in_s {
            in_d = !in_d;
            i += 1;
        } else if c == '>' && !in_s && !in_d {
            let append = i + 1 < n && cs[i + 1] == '>';
            let next_i = if append {
                i + 2
            } else {
                i + 1
            };
            let is_stderr = i > 0 && cs[i - 1] == '2';
            let start = if i > 0 && (cs[i - 1] == '2' || cs[i - 1] == '1') {
                i - 1
            } else {
                i
            };
            let rest = trim_start_chars(&cs, next_i);
            let token_opt = first_token_of(&rest);
            match token_opt {
                Some(tok) => {
                    if is_stderr {
                        se = Some((tok, append));
                    } else {
                        so = Some((tok, append));
                    }
                    if start < cmd_end {
                        cmd_end = start;
                    }
                    found = true;
                },
                None => {},
            }
            i = next_i;
        } else {
            i += 1;
        }
    }
    if !found {
        proof {
            assert(full_scan(cs@).found == false);
        }
        (input.to_owned(), None, None)
    } else {
        let trimmed = trim_end_chars(&cs, cmd_end);
        let command = string_from_chars(trimmed.as_slice());
        (command, so, se)
    }
}

/// Whether `s` holds a `>` outside both quote kinds, scanning from `i`
/// with the given quote state.
pub open spec fn has_unquoted_gt_from(s: Seq<char>, i: int, in_s: bool, in_d: bool) -> bool
    decreases s.len() - i,
{
    if i < 0 || i >= s.len() {
        false
    } else {
        let c = s[i];
        if c == '\'' && !in_d {
            has_unquoted_gt_from(s, i + 1, !in_s, in_d)
        } else if c == '"' && !in_s {
            has_unquoted_gt_from(s, i + 1, in_s, !in_d)
        } else if c == '>' && !in_s && !in_d {
            true
        } else {
            has_unquoted_gt_from(s, i + 1, in_s, in_d)
        }
    }
}

/// Whether `s` holds a `>` outside single and double quotes.
pub open spec fn has_unquoted_gt(s: Seq<char>) -> bool {
    has_unquoted_gt_from(s, 0, false, false)
}

/// A scan that meets no unquoted `>` records nothing.
proof fn lemma_scan_no_gt(s: Seq<char>, i: int, in_s: bool, in_d: bool, st: ScanState)
    requires
        0 <= i,
        !has_unquoted_gt_from(s, i, in_s, in_d),
    ensures
        scan(s, i, in_s, in_d, st) == st,
    decreases s.len() - i,
{
    if i < s.len() {
        let c = s[i];
        if c == '\'' && !in_d {
            lemma_scan_no_gt(s, i + 1, !in_s, in_d, st);
        } else if c == '"' && !in_s {
            lemma_scan_no_gt(s, i + 1, in_s, !in_d, st);
        } else {
            lemma_scan_no_gt(s, i + 1, in_s, in_d, st);
        }
    }
}

/// A line with no unquoted `>` comes back from extraction unchanged,
/// with both targets absent.
pub proof fn lemma_no_redirection_unchanged(s: Seq<char>)
    requires
        !has_unquoted_gt(s),
    ensures
        extract_spec(s).0 == s,
        extract_spec(s).1 is None,
        extract_spec(s).2 is None,
{
    lemma_scan_no_gt(s, 0, false, false, scan_state(None, None, s.len() as int, false));
}

/// Whitespace is never a quote character or an operator.
proof fn lemma_space_is_plain(c: char)
    requires
        is_space_char(c),
    ensures
        c != '\'' && c != '"' && c != '>',
{
}

/// Scanning for an unquoted `>` from position `i + 1` of `s` is
/// scanning its tail from position `i`.
proof fn lemma_gt_shift(s: Seq<char>, i: int, in_s: bool, in_d: bool)
    requires
        0 <= i,
        s.len() > 0,
    ensures
        has_unquoted_gt_from(s, i + 1, in_s, in_d) == has_unquoted_gt_from(
            s.drop_first(),
            i,
            in_s,
            in_d,
        ),
    decreases s.len() - i,
{
    let t = s.drop_first();
    if i + 1 < s.len() {
        let c = s[i + 1];
        assert(t[i] == c);
        if c == '\'' && !in_d {
            lemma_gt_shift(s, i + 1, !in_s, in_d);
        } else if c == '"' && !in_s {
            lemma_gt_shift(s, i + 1, in_s, !in_d);
        } else if c == '>' && !in_s && !in_d {
        } else {
            lemma_gt_shift(s, i + 1, in_s, in_d);
        }
    }
}

/// A trailing whitespace character changes nothing about unquoted `>`.
proof fn lemma_gt_drop_last_ws(s: Seq<char>, i: int, in_s: bool, in_d: bool)
    requires
        0 <= i,
        s.len() > 0,
        is_space_char(s.last()),
    ensures
        has_unquoted_gt_from(s, i, in_s, in_d) == has_unquoted_gt_from(
            s.drop_last(),
            i,
            in_s,
            in_d,
        ),
    decreases s.len() - i,
{
    let t = s.drop_last();
    lemma_space_is_plain(s.last());
    if i < s.len() {
        let c = s[i];
        if i == s.len() - 1 {
            assert(!has_unquoted_gt_from(s, i + 1, in_s, in_d));
            assert(!has_unquoted_gt_from(s, i, in_s, in_d));
            assert(!has_unquoted_gt_from(t, i, in_s, in_d));
        } else {
            assert(t[i] == c);
            if c == '\'' && !in_d {
                lemma_gt_drop_last_ws(s, i + 1, !in_s, in_d);
            } else if c == '"' && !in_s {
                lemma_gt_drop_last_ws(s, i + 1, in_s, !in_d);
            } else if c == '>' && !in_s && !in_d {
            } else {
                lemma_gt_drop_last_ws(s, i + 1, in_s, in_d);
            }
        }
    }
}

/// Trimming whitespace off both ends of a line neither hides nor
/// reveals an unquoted `>`.
pub proof fn lemma_trim_keeps_no_gt(s: Seq<char>)
    ensures
        has_unquoted_gt(trim_spec(s)) == has_unquoted_gt(s),
{
    lemma_gt_trim_start(s);
    lemma_gt_trim_end(trim_start_spec(s));
}

/// Leading whitespace changes nothing about unquoted `>`.
proof fn lemma_gt_trim_start(s: Seq<char>)
    ensures
        has_unquoted_gt(trim_start_spec(s)) == has_unquoted_gt(s),
    decreases s.len(),
{
    if s.len() > 0 && is_space_char(s[0]) {
        lemma_space_is_plain(s[0]);
        lemma_gt_shift(s, 0, false, false);
        lemma_gt_trim_start(s.drop_first());
    }
}

/// Trailing whitespace changes nothing about unquoted `>`.
proof fn lemma_gt_trim_end(s: Seq<char>)
    ensures
        has_unquoted_gt(trim_end_spec(s)) == has_unquoted_gt(s),
    decreases s.len(),
{
    if s.len() > 0 && is_space_char(s.last()) {
        lemma_gt_drop_last_ws(s, 0, false, false);
        lemma_gt_trim_end(s.drop_last());
    }
}

/// A line with no unquoted `>` passes the parser's extraction step —
/// which runs on the trimmed line — as its trimmed self, with both
/// targets absent.
pub proof fn lemma_no_redirection_trimmed(s: Seq<char>)
    requires
        !has_unquoted_gt(s),
    ensures
        extract_spec(trim_spec(s)).0 == trim_spec(s),
        extract_spec(trim_spec(s)).1 is None,
        extract_spec(trim_spec(s)).2 is None,
{
    lemma_trim_keeps_no_gt(s);
    lemma_no_redirection_unchanged(trim_spec(s));
}

/// One newline-terminated write the dispatcher asks for: to the
/// inherited output stream, or into a file.
#[derive(Debug, PartialEq, Eq)]
pub enum WriteAction {
    /// Write `line` and a newline to the inherited output stream.
    ToStdout { line: String },
    /// Leave the file at `path` holding
    /// `file_after_line(before, append, line@)`: truncate it to the
    /// line when `append` is false, extend it by the line otherwise.
    ToFile { path: String, append: bool, line: String },
}

/// The mathematical value of a write action.
pub open spec fn write_action_view(w: WriteAction) -> (Option<(Seq<char>, bool)>, Seq<char>) {
    match w {
        WriteAction::ToStdout { line } => (None, line@),
        WriteAction::ToFile { path, append, line } => (Some((path@, append)), line@),
    }
}

/// A file's contents after a newline-terminated line lands in it:
/// appended to what was there (an absent file counts as empty), or
/// replacing it.
pub open spec fn file_after_line(before: Option<Seq<char>>, append: bool, line: Seq<char>) -> Seq<
    char,
> {
    if append {
        (match before {
            Some(c) => c,
            None => Seq::empty(),
        }) + line + "\n"@
    } else {
        line + "\n"@
    }
}

/// A file's contents after it is opened for a redirection and nothing
/// is written: truncated to empty in overwrite mode, kept (an absent
/// file becomes empty) in append mode.
pub open spec fn file_after_touch(before: Option<Seq<char>>, append: bool) -> Seq<char> {
    if append {
        match before {
            Some(c) => c,
            None => Seq::empty(),
        }
    } else {
        Seq::empty()
    }
}

/// What a file must hold once a write action is performed against its
/// prior contents: unchanged for a write to the inherited stream, the
/// line landed per `file_after_line` for a write into the file.
pub open spec fn write_effect(w: WriteAction, before: Option<Seq<char>>) -> Option<Seq<char>> {
    match w {
        WriteAction::ToStdout { .. } => before,
        WriteAction::ToFile { path: _, append, line } => Some(
            file_after_line(before, append, line@),
        ),
    }
}

/// A write action in overwrite mode is idempotent: performing it a
/// second time leaves the file exactly as the first performance did —
/// one line, not two.
pub proof fn lemma_overwrite_idempotent(w: WriteAction, before: Option<Seq<char>>)
    requires
        w matches WriteAction::ToFile { append: false, .. },
    ensures
        write_effect(w, write_effect(w, before)) == write_effect(w, before),
{
}

/// Where a line of output must go: the inherited stream when no target
/// was extracted, the target file otherwise.
pub fn write_output(output: &str, redirect: Redirect) -> (w: WriteAction)
    ensures
        write_action_view(w) == (redirect_view(redirect), output@),
{
    match redirect {
        Some(p) => WriteAction::ToFile { path: p.0, append: p.1, line: output.to_owned() },
        None => WriteAction::ToStdout { line: output.to_owned() },
    }
}

/// The file a command with a redirected error stream but no error
/// output must still materialize: the stderr target, opened and left
/// holding `file_after_touch` of what was there; `None` when no
/// stderr target was extracted.
pub fn create_empty_stderr_file(stderr_redirect: Redirect) -> (t: Option<(String, bool)>)
    ensures
        redirect_view(t) == redirect_view(stderr_redirect),
{
    stderr_redirect
}

} // verus!
