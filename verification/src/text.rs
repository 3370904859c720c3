//! Small string utilities shared by the generators: ASCII case conversion
//! and equality against literal identifiers.

use vstd::prelude::*;
use vstd::string::StrSliceExecFns;
use vstd::string::StringExecFns;

verus! {

/// ASCII upper-casing of one character; anything outside `a..z` passes
/// through unchanged.
pub open spec fn upper_char(c: char) -> char {
    if 97 <= c as u32 && c as u32 <= 122 {
        ((c as u32 - 32) as u32) as char
    } else {
        c
    }
}

/// ASCII lower-casing of one character; anything outside `A..Z` passes
/// through unchanged.
pub open spec fn lower_char(c: char) -> char {
    if 65 <= c as u32 && c as u32 <= 90 {
        ((c as u32 + 32) as u32) as char
    } else {
        c
    }
}

pub fn to_upper(c: char) -> (r: char)
    ensures
        r == upper_char(c),
{
    let u = c as u32;
    if 97 <= u && u <= 122 {
        ((c as u8) - 32) as char
    } else {
        c
    }
}

pub fn to_lower(c: char) -> (r: char)
    ensures
        r == lower_char(c),
{
    let u = c as u32;
    if 65 <= u && u <= 90 {
        ((c as u8) + 32) as char
    } else {
        c
    }
}

/// Relies on std's `String::push`: appends the given character to the end
/// of the string.
#[verifier::external_body]
fn push_char(s: &mut String, c: char)
    ensures
        final(s)@ == old(s)@.push(c),
{
    s.push(c);
}

/// Compares a `String` against a literal identifier.
pub fn str_eqs(a: &String, b: &str) -> (r: bool)
    ensures
        r == (a@ == b@),
{
    let bs = String::from_str(b);
    *a == bs
}

/// The word-casing pass of the wire-case convention: underscores split the
/// name into words and are removed, and the first character of every word
/// is upper-cased.
pub open spec fn pascal_of(s: Seq<char>) -> Seq<char>
    decreases s.len(),
{
    if s.len() == 0 {
        Seq::empty()
    } else {
        let prefix = pascal_of(s.drop_last());
        let c = s.last();
        if c == '_' {
            prefix
        } else if s.len() == 1 || s[s.len() - 2] == '_' {
            prefix.push(upper_char(c))
        } else {
            prefix.push(c)
        }
    }
}

/// The full wire-case convention (lower camel case): words split on
/// underscores, each word's first character upper-cased, underscores
/// removed, and the first character of the whole lower-cased.
pub open spec fn wire_case_spec(s: Seq<char>) -> Seq<char> {
    let p = pascal_of(s);
    if p.len() == 0 {
        p
    } else {
        seq![lower_char(p[0])] + p.skip(1)
    }
}

/// Rewrites a declared name to the wire-case convention. The result is a
/// function of the name alone, so regenerating from an unchanged
/// declaration always yields the same wire name.
pub fn wire_case(name: &str) -> (r: String)
    ensures
        r@ == wire_case_spec(name@),
{
    let n = name.unicode_len();
    let mut pascal = String::new();
    let mut i: usize = 0;
    while i < n
        invariant
            n == name@.len(),
            i <= n,
            pascal@ == pascal_of(name@.take(i as int)),
        decreases n - i,
    {
        let c = name.get_char(i);
        if c != '_' {
            let word_start = i == 0 || name.get_char(i - 1) == '_';
            if word_start {
                push_char(&mut pascal, to_upper(c));
            } else {
                push_char(&mut pascal, c);
            }
        }
        proof {
            assert(name@.take(i + 1).drop_last() =~= name@.take(i as int));
            assert(name@.take(i + 1).last() == name@[i as int]);
        }
        i += 1;
    }
    proof {
        assert(name@.take(n as int) =~= name@);
    }
    let plen = pascal.as_str().unicode_len();
    if plen == 0 {
        pascal
    } else {
        let c0 = pascal.as_str().get_char(0);
        let mut out = String::new();
        push_char(&mut out, to_lower(c0));
        let rest = pascal.as_str().substring_char(1, plen);
        out.append(rest);
        proof {
            assert(rest@ =~= pascal_of(name@).skip(1));
            assert(out@ =~= wire_case_spec(name@));
        }
        out
    }
}

} // verus!
