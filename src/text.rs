use vstd::prelude::*;

verus! {

/// Relies on `String::push`: the character is appended at the end.
#[verifier::external_body]
pub(crate) fn push_char(s: &mut String, c: char)
    ensures
        final(s)@ == old(s)@.push(c),
{
    s.push(c)
}

/// The characters of `s`, in order.
pub fn chars_of(s: &str) -> (v: Vec<char>)
    ensures
        v@ == s@,
{
    let mut v: Vec<char> = Vec::new();
    for c in it: s.chars()
        invariant
            v@ == it.seq().take(it.index() as int),
    {
        v.push(c);
    }
    v
}

/// A `String` holding exactly the characters of `v`.
pub fn string_of(v: &Vec<char>) -> (s: String)
    ensures
        s@ == v@,
{
    let mut s = String::new();
    let mut j: usize = 0;
    while j < v.len()
        invariant
            j <= v.len(),
            s@ == v@.take(j as int),
        decreases v.len() - j,
    {
        push_char(&mut s, v[j]);
        assert(v@.take(j + 1) =~= v@.take(j as int).push(v@[j as int]));
        j = j + 1;
    }
    assert(v@.take(v.len() as int) =~= v@);
    s
}

} // verus!
