//! Character-level helpers: whitespace classification, conversion
//! between strings and character vectors, and trimming.

use vstd::prelude::*;

verus! {

/// The characters with the Unicode `White_Space` property; this is the
/// whitespace notion the whole crate trims and scans by.
pub open spec fn is_space_char(c: char) -> bool {
    ||| c == ' '
    ||| c == '\t'
    ||| c == '\n'
    ||| c == '\u{0b}'
    ||| c == '\u{0c}'
    ||| c == '\r'
    ||| c == '\u{85}'
    ||| c == '\u{a0}'
    ||| c == '\u{1680}'
    ||| (0x2000 <= c as u32 && c as u32 <= 0x200a)
    ||| c == '\u{2028}'
    ||| c == '\u{2029}'
    ||| c == '\u{202f}'
    ||| c == '\u{205f}'
    ||| c == '\u{3000}'
}

/// Executable whitespace test, equal to `is_space_char`.
pub fn is_space(c: char) -> (r: bool)
    ensures
        r == is_space_char(c),
{
    c == ' ' || c == '\t' || c == '\n' || c == '\u{0b}' || c == '\u{0c}' || c == '\r'
        || c == '\u{85}' || c == '\u{a0}' || c == '\u{1680}'
        || (c >= '\u{2000}' && c <= '\u{200a}') || c == '\u{2028}' || c == '\u{2029}'
        || c == '\u{202f}' || c == '\u{205f}' || c == '\u{3000}'
}

/// The characters of a string, in order.
pub fn chars_of(s: &str) -> (r: Vec<char>)
    ensures
        r@ == s@,
{
    broadcast use vstd::string::axiom_spec_iter;

    let mut v: Vec<char> = Vec::new();
    for c in it: s.chars()
        invariant
            it.seq() == s@,
            v@ == it.seq().take(it.index()),
    {
        v.push(c);
    }
    proof {
        assert(v@ =~= s@);
    }
    v
}

/// Relies on `String::from_iter` (through `Iterator::collect`): the
/// returned string holds exactly the given characters, in order.
#[verifier::external_body]
pub fn string_from_chars(v: &[char]) -> (r: String)
    ensures
        r@ == v@,
{
    v.iter().collect()
}

/// String equality, stated over the views.
pub fn str_eq(a: &str, b: &str) -> (r: bool)
    ensures
        r == (a@ == b@),
{
    let x: String = a.to_owned();
    let y: String = b.to_owned();
    x == y
}

/// What remains of `s` once every leading whitespace character is gone.
pub open spec fn trim_start_spec(s: Seq<char>) -> Seq<char>
    decreases s.len(),
{
    if s.len() == 0 {
        s
    } else if is_space_char(s[0]) {
        trim_start_spec(s.drop_first())
    } else {
        s
    }
}

/// What remains of `s` once every trailing whitespace character is gone.
pub open spec fn trim_end_spec(s: Seq<char>) -> Seq<char>
    decreases s.len(),
{
    if s.len() == 0 {
        s
    } else if is_space_char(s[s.len() - 1]) {
        trim_end_spec(s.drop_last())
    } else {
        s
    }
}

/// `s` without leading and trailing whitespace.
pub open spec fn trim_spec(s: Seq<char>) -> Seq<char> {
    trim_end_spec(trim_start_spec(s))
}

/// If the first `k` characters are whitespace and the `k`-th is not,
/// trimming the start drops exactly those `k` characters.
proof fn lemma_trim_start_at(s: Seq<char>, k: int)
    requires
        0 <= k <= s.len(),
        forall|j: int| 0 <= j < k ==> is_space_char(s[j]),
        k < s.len() ==> !is_space_char(s[k]),
    ensures
        trim_start_spec(s) == s.subrange(k, s.len() as int),
    decreases k,
{
    if k == 0 {
        assert(s.subrange(0, s.len() as int) =~= s);
    } else {
        let t = s.drop_first();
        assert(forall|j: int| 0 <= j < k - 1 ==> is_space_char(t[j]));
        lemma_trim_start_at(t, k - 1);
        assert(t.subrange(k - 1, t.len() as int) =~= s.subrange(k, s.len() as int));
    }
}

/// If every character from position `k` on is whitespace and the one
/// before `k` is not, trimming the end keeps exactly the first `k`.
proof fn lemma_trim_end_at(s: Seq<char>, k: int)
    requires
        0 <= k <= s.len(),
        forall|j: int| k <= j < s.len() ==> is_space_char(s[j]),
        k > 0 ==> !is_space_char(s[k - 1]),
    ensures
        trim_end_spec(s) == s.subrange(0, k),
    decreases s.len() - k,
{
    if k == s.len() {
        assert(s.subrange(0, s.len() as int) =~= s);
        if s.len() > 0 {
            assert(!is_space_char(s[s.len() - 1]));
        }
    } else {
        let t = s.drop_last();
        assert(is_space_char(s[s.len() - 1]));
        assert(forall|j: int| k <= j < t.len() ==> is_space_char(t[j]));
        lemma_trim_end_at(t, k);
        assert(t.subrange(0, k) =~= s.subrange(0, k));
    }
}

/// The characters of `cs` from `from` on, with leading whitespace dropped.
pub fn trim_start_chars(cs: &Vec<char>, from: usize) -> (r: Vec<char>)
    requires
        from <= cs@.len(),
    ensures
        r@ == trim_start_spec(cs@.subrange(from as int, cs@.len() as int)),
{
    let ghost s = cs@.subrange(from as int, cs@.len() as int);
    let n = cs.len();
    let mut j = from;
    while j < n && is_space(cs[j])
        invariant
            from <= j <= n,
            n == cs@.len(),
            forall|k: int| from <= k < j ==> is_space_char(cs@[k]),
        decreases n - j,
    {
        j += 1;
    }
    proof {
        assert(forall|k: int| 0 <= k < j - from ==> is_space_char(s[k]));
        lemma_trim_start_at(s, j - from);
    }
    let mut r: Vec<char> = Vec::new();
    let mut i: usize = j;
    while i < n
        invariant
            j <= i <= n,
            n == cs@.len(),
            r@ == cs@.subrange(j as int, i as int),
        decreases n - i,
    {
        r.push(cs[i]);
        proof {
            assert(r@ =~= cs@.subrange(j as int, i + 1));
        }
        i += 1;
    }
    proof {
        assert(cs@.subrange(j as int, n as int) =~= s.subrange(j - from, s.len() as int));
    }
    r
}

/// The characters of `cs` before `upto`, with trailing whitespace dropped.
pub fn trim_end_chars(cs: &Vec<char>, upto: usize) -> (r: Vec<char>)
    requires
        upto <= cs@.len(),
    ensures
        r@ == trim_end_spec(cs@.subrange(0, upto as int)),
{
    let ghost s = cs@.subrange(0, upto as int);
    let mut j = upto;
    while j > 0 && is_space(cs[j - 1])
        invariant
            0 <= j <= upto,
            upto <= cs@.len(),
            forall|k: int| j <= k < upto ==> is_space_char(cs@[k]),
        decreases j,
    {
        j -= 1;
    }
    proof {
        assert(forall|k: int| j <= k < upto ==> is_space_char(s[k]));
        lemma_trim_end_at(s, j as int);
    }
    let mut r: Vec<char> = Vec::new();
    let mut i: usize = 0;
    while i < j
        invariant
            0 <= i <= j <= upto <= cs@.len(),
            r@ == cs@.subrange(0, i as int),
        decreases j - i,
    {
        r.push(cs[i]);
        proof {
            assert(r@ =~= cs@.subrange(0, i + 1));
        }
        i += 1;
    }
    proof {
        assert(cs@.subrange(0, j as int) =~= s.subrange(0, j as int));
    }
    r
}

/// `s` without leading and trailing whitespace, as a fresh string.
pub fn trim_string(s: &str) -> (r: String)
    ensures
        r@ == trim_spec(s@),
{
    let cs = chars_of(s);
    let started = trim_start_chars(&cs, 0);
    proof {
        assert(cs@.subrange(0, cs@.len() as int) =~= cs@);
    }
    let ended = trim_end_chars(&started, started.len());
    proof {
        assert(started@.subrange(0, started@.len() as int) =~= started@);
    }
    string_from_chars(ended.as_slice())
}

} // verus!
