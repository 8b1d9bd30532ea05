//! Sanitising a raw project name into a safe identifier.
//!
//! A raw name is first trimmed of surrounding whitespace, then every
//! character outside `[a-zA-Z0-9]` is replaced by the designated separator
//! `'-'`, and finally ASCII upper-case letters are folded to lower case.
//! The result therefore contains only `[a-z0-9-]`; it is empty exactly when
//! the trimmed input is empty.

use vstd::prelude::*;

verus! {

/// The designated separator that replaces every disallowed character.
pub open spec fn separator() -> char {
    '-'
}

/// A character that survives normalisation unchanged: an ASCII letter or digit.
pub open spec fn is_alnum(c: char) -> bool {
    ('a' <= c && c <= 'z') || ('A' <= c && c <= 'Z') || ('0' <= c && c <= '9')
}

/// What one character of the raw name becomes.
pub open spec fn normalize_char(c: char) -> char {
    if is_alnum(c) {
        c
    } else {
        separator()
    }
}

/// The raw name with every disallowed character replaced by the separator.
pub open spec fn replaced(s: Seq<char>) -> Seq<char> {
    s.map_values(|c: char| normalize_char(c))
}

fn is_alnum_exec(c: char) -> (r: bool)
    ensures
        r == is_alnum(c),
{
    ('a' <= c && c <= 'z') || ('A' <= c && c <= 'Z') || ('0' <= c && c <= '9')
}

/// Appends one character to a string.
///
/// Relies on `String::push` from std: it appends exactly the given character
/// to the end of the string.
#[verifier::external_body]
fn push_char(s: &mut String, c: char)
    ensures
        final(s)@ == old(s)@.push(c),
{
    s.push(c)
}

/// A character with the Unicode `White_Space` property, the set that
/// `str::trim` removes from the ends of a string.
pub open spec fn is_space(c: char) -> bool {
    ('\u{0009}' <= c && c <= '\u{000D}') || c == ' ' || c == '\u{0085}' || c == '\u{00A0}'
        || c == '\u{1680}' || ('\u{2000}' <= c && c <= '\u{200A}') || c == '\u{2028}'
        || c == '\u{2029}' || c == '\u{202F}' || c == '\u{205F}' || c == '\u{3000}'
}

fn is_space_exec(c: char) -> (r: bool)
    ensures
        r == is_space(c),
{
    ('\u{0009}' <= c && c <= '\u{000D}') || c == ' ' || c == '\u{0085}' || c == '\u{00A0}'
        || c == '\u{1680}' || ('\u{2000}' <= c && c <= '\u{200A}') || c == '\u{2028}'
        || c == '\u{2029}' || c == '\u{202F}' || c == '\u{205F}' || c == '\u{3000}'
}

/// The string without its leading whitespace.
pub open spec fn trim_start_spec(s: Seq<char>) -> Seq<char>
    decreases s.len(),
{
    if s.len() == 0 {
        s
    } else if is_space(s[0]) {
        trim_start_spec(s.drop_first())
    } else {
        s
    }
}

/// The string without its trailing whitespace.
pub open spec fn trim_end_spec(s: Seq<char>) -> Seq<char>
    decreases s.len(),
{
    if s.len() == 0 {
        s
    } else if is_space(s.last()) {
        trim_end_spec(s.drop_last())
    } else {
        s
    }
}

/// The string without leading and trailing whitespace.
pub open spec fn trimmed(s: Seq<char>) -> Seq<char> {
    trim_end_spec(trim_start_spec(s))
}

proof fn lemma_trim_start_skip(s: Seq<char>, k: int)
    requires
        0 <= k <= s.len(),
        forall|m: int| 0 <= m < k ==> is_space(s[m]),
        k == s.len() || !is_space(s[k]),
    ensures
        trim_start_spec(s) == s.skip(k),
    decreases k,
{
    if k == 0 {
        assert(s.skip(0) =~= s);
    } else {
        lemma_trim_start_skip(s.drop_first(), k - 1);
        assert(s.drop_first().skip(k - 1) =~= s.skip(k));
    }
}

proof fn lemma_trim_end_take(s: Seq<char>, j: int)
    requires
        0 <= j <= s.len(),
        forall|m: int| j <= m < s.len() ==> is_space(s[m]),
        j == 0 || !is_space(s[j - 1]),
    ensures
        trim_end_spec(s) == s.take(j),
    decreases s.len() - j,
{
    if j == s.len() {
        assert(s.take(j) =~= s);
    } else {
        lemma_trim_end_take(s.drop_last(), j);
        assert(s.drop_last().take(j) =~= s.take(j));
    }
}

/// Removes leading and trailing Unicode whitespace, as `str::trim` does.
pub fn trim_whitespace<'a>(s: &'a str) -> (r: &'a str)
    ensures
        r@ == trimmed(s@),
{
    let n = s.unicode_len();
    let mut start: usize = 0;
    loop
        invariant
            n == s@.len(),
            0 <= start <= n,
            forall|m: int| 0 <= m < start ==> is_space(s@[m]),
        ensures
            0 <= start <= n,
            forall|m: int| 0 <= m < start ==> is_space(s@[m]),
            start == n || !is_space(s@[start as int]),
        decreases n - start,
    {
        if start == n {
            break ;
        }
        if !is_space_exec(s.get_char(start)) {
            break ;
        }
        start = start + 1;
    }
    let mut end: usize = n;
    loop
        invariant
            n == s@.len(),
            start <= end <= n,
            forall|m: int| end <= m < n ==> is_space(s@[m]),
        ensures
            start <= end <= n,
            forall|m: int| end <= m < n ==> is_space(s@[m]),
            end == start || !is_space(s@[end - 1]),
        decreases end - start,
    {
        if end == start {
            break ;
        }
        if !is_space_exec(s.get_char(end - 1)) {
            break ;
        }
        end = end - 1;
    }
    let r = s.substring_char(start, end);
    proof {
        if start == n || !is_space(s@[start as int]) {
            lemma_trim_start_skip(s@, start as int);
        }
        let t = s@.skip(start as int);
        if end == start {
            // everything from `start` on is whitespace, so the tail trims away
            lemma_trim_end_take(t, 0);
        } else {
            lemma_trim_end_take(t, end - start);
        }
        assert(t.take(end - start) =~= s@.subrange(start as int, end as int));
        assert(r@ == trimmed(s@));
    }
    r
}

/// An ASCII upper-case letter folded to lower case; any other character is
/// kept. On the separator-and-alphanumeric alphabet that `replaced` produces
/// this agrees with full Unicode lower-casing.
pub open spec fn lower_char(c: char) -> char {
    if 'A' <= c && c <= 'Z' {
        ((c as u32) + 32) as char
    } else {
        c
    }
}

/// Each character of the string folded by `lower_char`.
pub open spec fn lowered(s: Seq<char>) -> Seq<char> {
    s.map_values(|c: char| lower_char(c))
}

fn lower_char_exec(c: char) -> (r: char)
    ensures
        r == lower_char(c),
{
    if 'A' <= c && c <= 'Z' {
        ((c as u8) + 32) as char
    } else {
        c
    }
}

/// Replaces every character outside `[a-zA-Z0-9]` — whitespace, punctuation,
/// the other separator variant — by the designated separator `'-'`. Total
/// over every input, including the empty string; keeps the length.
pub fn format_project_name(name: &str) -> (r: String)
    ensures
        r@ == replaced(name@),
        r@.len() == name@.len(),
        forall|i: int| 0 <= i < r@.len() ==> (is_alnum(#[trigger] r@[i]) || r@[i] == separator()),
{
    let n = name.unicode_len();
    let mut out = String::new();
    let mut i: usize = 0;
    while i < n
        invariant
            n == name@.len(),
            0 <= i <= n,
            out@ == replaced(name@.take(i as int)),
        decreases n - i,
    {
        let c = name.get_char(i);
        let d = if is_alnum_exec(c) {
            c
        } else {
            '-'
        };
        push_char(&mut out, d);
        proof {
            assert(name@.take(i + 1 as int).drop_last() =~= name@.take(i as int));
            assert(out@ =~= replaced(name@.take(i + 1 as int)));
        }
        i = i + 1;
    }
    proof {
        assert(name@.take(n as int) =~= name@);
    }
    out
}

/// The full normalisation: trim, replace disallowed characters, lower-case.
pub open spec fn normalized(s: Seq<char>) -> Seq<char> {
    lowered(replaced(trimmed(s)))
}

/// A character the normalised name may contain: a lower-case ASCII letter,
/// a digit, or the separator.
pub open spec fn is_allowed(c: char) -> bool {
    ('a' <= c && c <= 'z') || ('0' <= c && c <= '9') || c == separator()
}

/// Trims the raw name, replaces every disallowed character by the separator
/// and folds the result to lower case. Total over every input; the result is
/// empty exactly when the trimmed input is empty.
pub fn normalize_project_name(raw: &str) -> (r: String)
    ensures
        r@ == normalized(raw@),
        r@.len() == trimmed(raw@).len(),
        forall|i: int| 0 <= i < r@.len() ==> is_allowed(#[trigger] r@[i]),
{
    let t = trim_whitespace(raw);
    let f = format_project_name(t);
    let n = f.as_str().unicode_len();
    let mut out = String::new();
    let mut i: usize = 0;
    while i < n
        invariant
            n == f@.len(),
            0 <= i <= n,
            out@ == lowered(f@.take(i as int)),
        decreases n - i,
    {
        let c = f.as_str().get_char(i);
        push_char(&mut out, lower_char_exec(c));
        proof {
            assert(f@.take(i + 1 as int).drop_last() =~= f@.take(i as int));
            assert(out@ =~= lowered(f@.take(i + 1 as int)));
        }
        i = i + 1;
    }
    proof {
        assert(f@.take(n as int) =~= f@);
    }
    out
}

/// Law: for every input string, every character of the normalised name is an
/// ASCII lower-case letter, a digit, or the designated separator — the
/// normaliser is total and never produces a character outside that set.
pub proof fn lemma_normalized_chars_allowed(s: Seq<char>)
    ensures
        forall|i: int| 0 <= i < normalized(s).len() ==> is_allowed(#[trigger] normalized(s)[i]),
{
}

/// Law: an all-whitespace or empty raw name normalises to the empty string,
/// which the orchestrator then rejects rather than scaffolding with it.
pub proof fn lemma_whitespace_normalizes_to_empty(s: Seq<char>)
    requires
        forall|i: int| 0 <= i < s.len() ==> is_space(#[trigger] s[i]),
    ensures
        normalized(s).len() == 0,
{
    lemma_trim_start_skip(s, s.len() as int);
    assert(s.skip(s.len() as int) =~= Seq::<char>::empty());
}

} // verus!
