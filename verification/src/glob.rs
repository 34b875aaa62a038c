//! URL glob matching for client-side waits.
//!
//! Playwright URL globs: `*` matches any run of characters except `/` (one
//! path segment), `**` matches any run including `/`, and everything else is
//! matched literally (`.`, `?`, `+`, brackets and the other characters the
//! regex engine reads as syntax are escaped). The glob is translated to an
//! anchored regular expression; a translation that the regex engine rejects
//! never matches.

use vstd::prelude::*;
use crate::text::{push_char, push_str, to_chars};

verus! {

#[verifier::external_type_specification]
#[verifier::external_body]
pub struct ExRegex(regex::Regex);

/// Whether `regex::Regex::new` accepts `pattern` (syntax and size limit).
pub uninterp spec fn regex_compiles(pattern: Seq<char>) -> bool;

/// Whether the regex compiled from `pattern` finds a match anywhere in
/// `haystack` (`regex::Regex::is_match`).
pub uninterp spec fn regex_finds_match(pattern: Seq<char>, haystack: Seq<char>) -> bool;

/// `regex::Regex::new`: succeeds exactly on the patterns the engine accepts;
/// a rejection is handed back as the engine's error text, of which nothing
/// is stated.
#[verifier::external_body]
fn regex_new(pattern: &str) -> (r: Result<regex::Regex, String>)
    ensures
        r is Ok <==> regex_compiles(pattern@),
{
    match regex::Regex::new(pattern) {
        Ok(re) => Ok(re),
        Err(e) => Err(e.to_string()),
    }
}

/// A compiled regular expression together with the pattern it came from.
pub struct Pattern {
    regex: regex::Regex,
    source: Ghost<Seq<char>>,
}

impl Pattern {
    /// The pattern this regex was compiled from.
    pub closed spec fn source(&self) -> Seq<char> {
        self.source@
    }

    /// Compiles `pattern`; fails exactly when the regex engine rejects it.
    pub fn compile(pattern: &str) -> (r: Result<Pattern, String>)
        ensures
            r is Ok <==> regex_compiles(pattern@),
            r matches Ok(p) ==> p.source() == pattern@,
    {
        match regex_new(pattern) {
            Ok(regex) => Ok(Pattern { regex, source: Ghost(pattern@) }),
            Err(e) => Err(e),
        }
    }

    /// `regex::Regex::is_match` on the regex compiled from `self.source()`.
    #[verifier::external_body]
    pub(crate) fn is_match(&self, haystack: &str) -> (b: bool)
        ensures
            b == regex_finds_match(self.source(), haystack@),
    {
        self.regex.is_match(haystack)
    }
}

/// The characters the regex engine gives a meaning of their own (`*` is
/// handled by the glob rules before this is asked).
pub open spec fn is_regex_meta(c: char) -> bool {
    c == '\\' || c == '.' || c == '+' || c == '*' || c == '?' || c == '(' || c == ')' || c == '|'
        || c == '[' || c == ']' || c == '{' || c == '}' || c == '^' || c == '$' || c == '#' || c
        == '&' || c == '-' || c == '~'
}

/// The regex body for a glob: `**` becomes `.*`, a lone `*` becomes
/// `[^/]*`, every other character the regex engine would read as syntax is
/// escaped with a backslash, and the rest stand for themselves.
pub open spec fn glob_body(p: Seq<char>) -> Seq<char>
    decreases p.len(),
{
    if p.len() == 0 {
        Seq::empty()
    } else if p.len() >= 2 && p[0] == '*' && p[1] == '*' {
        seq!['.', '*'] + glob_body(p.subrange(2, p.len() as int))
    } else if p[0] == '*' {
        seq!['[', '^', '/', ']', '*'] + glob_body(p.drop_first())
    } else if is_regex_meta(p[0]) {
        seq!['\\', p[0]] + glob_body(p.drop_first())
    } else {
        seq![p[0]] + glob_body(p.drop_first())
    }
}

/// The anchored regex a glob translates to.
pub open spec fn glob_regex(p: Seq<char>) -> Seq<char> {
    seq!['^'] + glob_body(p) + seq!['$']
}

/// Whether `text` matches the glob `pattern`.
pub open spec fn glob_matches(pattern: Seq<char>, text: Seq<char>) -> bool {
    regex_compiles(glob_regex(pattern)) && regex_finds_match(glob_regex(pattern), text)
}

/// Whether the regex engine reads `c` as syntax.
fn regex_meta(c: char) -> (r: bool)
    ensures
        r == is_regex_meta(c),
{
    c == '\\' || c == '.' || c == '+' || c == '*' || c == '?' || c == '(' || c == ')' || c == '|'
        || c == '[' || c == ']' || c == '{' || c == '}' || c == '^' || c == '$' || c == '#' || c
        == '&' || c == '-' || c == '~'
}

/// Translates a glob into its anchored regular expression.
pub fn glob_to_regex(pattern: &str) -> (r: String)
    ensures
        r@ == glob_regex(pattern@),
{
    let p = to_chars(pattern);
    let n = p.len();
    let mut out = String::new();
    push_char(&mut out, '^');
    let mut i: usize = 0;
    assert(p@.subrange(0, n as int) =~= p@);
    while i < n
        invariant
            p@ == pattern@,
            n == p.len(),
            i <= n,
            seq!['^'] + glob_body(pattern@) == out@ + glob_body(pattern@.subrange(i as int, n as int)),
        decreases n - i,
    {
        let ghost rest = pattern@.subrange(i as int, n as int);
        let c = p[i];
        if c == '*' && i + 1 < n && p[i + 1] == '*' {
            assert(rest.subrange(2, rest.len() as int) =~= pattern@.subrange(i + 2, n as int));
            push_char(&mut out, '.');
            push_char(&mut out, '*');
            i = i + 2;
        } else if c == '*' {
            assert(rest.drop_first() =~= pattern@.subrange(i + 1, n as int));
            push_str(&mut out, "[^/]*");
            proof {
                reveal_strlit("[^/]*");
            }
            i = i + 1;
        } else if regex_meta(c) {
            assert(rest.drop_first() =~= pattern@.subrange(i + 1, n as int));
            push_char(&mut out, '\\');
            push_char(&mut out, c);
            i = i + 1;
        } else {
            assert(rest.drop_first() =~= pattern@.subrange(i + 1, n as int));
            push_char(&mut out, c);
            i = i + 1;
        }
    }
    push_char(&mut out, '$');
    assert(pattern@.subrange(n as int, n as int) =~= Seq::<char>::empty());
    out
}

/// Returns whether `text` matches the glob `pattern`; `false` when the
/// translated pattern is not a valid regex.
pub fn glob_match(pattern: &str, text: &str) -> (r: bool)
    ensures
        r == glob_matches(pattern@, text@),
{
    let regex_str = glob_to_regex(pattern);
    match Pattern::compile(regex_str.as_str()) {
        Ok(re) => re.is_match(text),
        Err(_) => false,
    }
}

} // verus!
