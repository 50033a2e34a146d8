use vstd::prelude::*;
use vstd::string::*;

use crate::ast::Lit;

verus! {

/// The state of the left-to-right camel-case scan after reading `s`:
/// the text produced so far, and whether the next character starts a new word.
pub open spec fn camel_scan(s: Seq<char>) -> (Seq<char>, bool)
    decreases s.len(),
{
    if s.len() == 0 {
        (Seq::empty(), false)
    } else {
        let (out, at_new_word) = camel_scan(s.drop_last());
        let c = s.last();
        if c == '_' {
            (out, true)
        } else if at_new_word {
            (out.push(ascii_upper(c)), false)
        } else {
            (out.push(c), false)
        }
    }
}

/// The camel-case form of a snake-case identifier.
pub open spec fn camel_of(s: Seq<char>) -> Seq<char> {
    camel_scan(s).0
}

/// ASCII upper-casing of one character; every other character is unchanged.
pub open spec fn ascii_upper(c: char) -> char {
    if 'a' <= c && c <= 'z' {
        ((c as u32) - 32) as char
    } else {
        c
    }
}

/// ASCII upper-casing of one character: `a..=z` become `A..=Z`.
fn to_ascii_upper(c: char) -> (r: char)
    ensures
        r == ascii_upper(c),
{
    if 'a' <= c && c <= 'z' {
        ((c as u8) - 32) as char
    } else {
        c
    }
}

/// Relies on `String::push`: appends one character.
#[verifier::external_body]
pub(crate) fn push_char(s: &mut String, c: char)
    ensures
        final(s)@ == old(s)@.push(c),
{
    s.push(c)
}

/// Converts a snake-case identifier to camel case: each `_` is dropped and
/// the character after it is upper-cased (ASCII only).
pub fn snake_to_camel_case(s: &str) -> (r: String)
    ensures
        r@ == camel_of(s@),
{
    let mut result = String::new();
    let mut at_new_word = false;
    let n = s.unicode_len();
    let mut i: usize = 0;
    while i < n
        invariant
            n == s@.len(),
            i <= n,
            camel_scan(s@.take(i as int)) == (result@, at_new_word),
        decreases n - i,
    {
        let c = s.get_char(i);
        assert(s@.take(i as int + 1).drop_last() =~= s@.take(i as int));
        if c == '_' {
            at_new_word = true;
        } else if at_new_word {
            push_char(&mut result, to_ascii_upper(c));
            at_new_word = false;
        } else {
            push_char(&mut result, c);
        }
        i = i + 1;
    }
    assert(s@.take(n as int) =~= s@);
    result
}

/// An identifier without underscores is already in camel case.
pub proof fn lemma_camel_no_underscore(s: Seq<char>)
    requires
        no_underscore(s),
    ensures
        camel_of(s) == s,
        !camel_scan(s).1,
    decreases s.len(),
{
    if s.len() > 0 {
        lemma_camel_no_underscore(s.drop_last());
        assert(s.drop_last().push(s.last()) =~= s);
    }
}

/// Whether a text holds no underscore.
pub open spec fn no_underscore(t: Seq<char>) -> bool {
    forall|i: int| 0 <= i < t.len() ==> t[i] != '_'
}

/// The camel-case form never holds an underscore.
proof fn lemma_camel_has_no_underscore(s: Seq<char>)
    ensures
        no_underscore(camel_scan(s).0),
    decreases s.len(),
{
    if s.len() > 0 {
        lemma_camel_has_no_underscore(s.drop_last());
        let out = camel_scan(s.drop_last()).0;
        let c = s.last();
        if c != '_' {
            assert(ascii_upper(c) != '_');
            assert forall|i: int| 0 <= i < out.len() + 1 implies out.push(ascii_upper(c))[i] != '_'
                && out.push(c)[i] != '_' by {
                if i < out.len() {
                    assert(out[i] != '_');
                }
            }
        }
    }
}

/// Converting to camel case twice gives the same as converting once.
pub proof fn lemma_camel_idempotent(s: Seq<char>)
    ensures
        camel_of(camel_of(s)) == camel_of(s),
{
    lemma_camel_has_no_underscore(s);
    lemma_camel_no_underscore(camel_of(s));
}

/// Whether a path is absolute: it starts at the root `/`.
pub open spec fn is_absolute(p: Seq<char>) -> bool {
    p.len() > 0 && p[0] == '/'
}

/// `d` joined with `p`: an absolute `p` replaces `d`; otherwise `p` is
/// appended after a separator, unless `d` is empty or already ends in one.
pub open spec fn join_path(d: Seq<char>, p: Seq<char>) -> Seq<char> {
    if is_absolute(p) {
        p
    } else if d.len() > 0 && d.last() != '/' {
        d + seq!['/'] + p
    } else {
        d + p
    }
}

/// Resolves `path` against the working directory `cwd`: an absolute path is
/// returned unchanged, a relative one is joined onto `cwd`.
pub fn absolutize(path: &str, cwd: &str) -> (r: String)
    ensures
        is_absolute(path@) ==> r@ == path@,
        !is_absolute(path@) ==> r@ == join_path(cwd@, path@),
{
    let starts_at_root = path.unicode_len() > 0 && path.get_char(0) == '/';
    if starts_at_root {
        path.to_owned()
    } else {
        let mut r = cwd.to_owned();
        let n = cwd.unicode_len();
        if n > 0 && cwd.get_char(n - 1) != '/' {
            push_char(&mut r, '/');
        }
        r.append(path);
        r
    }
}

/// The string value of a literal, if it is a string literal.
pub open spec fn lit_str(lit: Lit) -> Option<Seq<char>> {
    match lit {
        Lit::Str(s) => Some(s@),
        _ => None,
    }
}

/// The string value of a literal; `None` for any other kind of literal.
pub fn lit_to_str(lit: &Lit) -> (r: Option<&str>)
    ensures
        r is Some == lit_str(*lit) is Some,
        r is Some ==> r->0@ == lit_str(*lit)->0,
{
    match lit {
        Lit::Str(s) => Some(s.as_str()),
        _ => None,
    }
}

/// Character-wise equality of two strings.
pub fn str_eq(a: &str, b: &str) -> (r: bool)
    ensures
        r == (a@ == b@),
{
    let n = a.unicode_len();
    if n != b.unicode_len() {
        return false;
    }
    let mut i: usize = 0;
    while i < n
        invariant
            n == a@.len(),
            n == b@.len(),
            i <= n,
            forall|j: int| 0 <= j < i ==> a@[j] == b@[j],
        decreases n - i,
    {
        if a.get_char(i) != b.get_char(i) {
            return false;
        }
        i = i + 1;
    }
    assert(a@ =~= b@);
    true
}

} // verus!
