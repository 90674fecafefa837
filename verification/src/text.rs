//! Small executable helpers for building and reading strings.

use vstd::prelude::*;
use vstd::std_specs::iter::IteratorSpec;

verus! {

/// Relies on `String::push`: appends the given character to the end of
/// the string.
#[verifier::external_body]
pub(crate) fn push_char(s: &mut String, c: char)
    ensures
        final(s)@ == old(s)@.push(c),
{
    s.push(c);
}

/// Relies on `String::push_str`: appends the characters of the given
/// string slice to the end of the string.
#[verifier::external_body]
pub(crate) fn push_str(s: &mut String, t: &str)
    ensures
        final(s)@ == old(s)@ + t@,
{
    s.push_str(t);
}

/// Collects the characters of a string slice into a vector.
pub(crate) fn chars_of(s: &str) -> (v: Vec<char>)
    ensures
        v@ == s@,
{
    broadcast use vstd::string::group_string_axioms;

    let ghost total: Seq<char> = s@;
    let mut it = s.chars();
    let mut v: Vec<char> = Vec::new();
    proof {
        assert(total.skip(0) =~= total);
        assert(total.take(0) =~= Seq::<char>::empty());
    }
    loop
        invariant
            v@.len() <= total.len(),
            v@ == total.take(v@.len() as int),
            it.remaining() == total.skip(v@.len() as int),
        ensures
            v@ == total,
        decreases total.len() - v@.len(),
    {
        match it.next() {
            Some(c) => {
                proof {
                    assert(total.skip(v@.len() as int).len() > 0);
                }
                v.push(c);
                proof {
                    assert(v@ =~= total.take(v@.len() as int));
                    assert(it.remaining() =~= total.skip(v@.len() as int));
                }
            },
            None => {
                proof {
                    assert(total.skip(v@.len() as int).len() == 0);
                    assert(v@ =~= total);
                }
                break ;
            },
        }
    }
    v
}

} // verus!
