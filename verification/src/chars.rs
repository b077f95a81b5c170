//! Character-vector helpers: the library's text processing works on
//! `Vec<char>`, whose contents Verus can reason about directly, and
//! crosses to `&str` / `String` only at the edges.

use vstd::prelude::*;

verus! {

/// Relies on `str::chars` (with `Iterator::collect`): yields exactly the
/// characters of the string, in order.
#[verifier::external_body]
pub(crate) fn chars_of(s: &str) -> (out: Vec<char>)
    ensures
        out@ == s@,
{
    s.chars().collect()
}

/// Relies on `String`'s `FromIterator<char>` impl: collecting characters
/// builds the string of exactly those characters, in order.
#[verifier::external_body]
pub(crate) fn string_of(chars: &Vec<char>) -> (out: String)
    ensures
        out@ == chars@,
{
    chars.iter().collect()
}

/// Appends every character of `part` to `out`.
pub(crate) fn push_all(out: &mut Vec<char>, part: &Vec<char>)
    ensures
        final(out)@ == old(out)@ + part@,
{
    let mut j: usize = 0;
    while j < part.len()
        invariant
            j <= part@.len(),
            out@ == old(out)@ + part@.take(j as int),
        decreases part@.len() - j,
    {
        out.push(part[j]);
        proof {
            assert(part@.take(j as int + 1) =~= part@.take(j as int).push(part@[j as int]));
            assert(out@ =~= old(out)@ + part@.take(j as int + 1));
        }
        j = j + 1;
    }
    proof {
        assert(part@.take(part@.len() as int) =~= part@);
    }
}

/// Appends every character of the string slice `part` to `out`.
pub(crate) fn push_str_chars(out: &mut Vec<char>, part: &str)
    ensures
        final(out)@ == old(out)@ + part@,
{
    let v = chars_of(part);
    push_all(out, &v);
}

} // verus!
