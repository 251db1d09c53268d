use vstd::prelude::*;

verus! {

/// Collects the characters of a string slice into a vector.
pub fn chars_of(s: &str) -> (v: Vec<char>)
    ensures
        v@ == s@,
{
    let mut v: Vec<char> = Vec::new();
    for c in it: s.chars()
        invariant
            v@ == it.seq().take(it.index() as int),
            it.seq() == s@,
    {
        v.push(c);
    }
    v
}

} // verus!

verus! {

/// Whether two string slices hold the same characters.
pub fn same_text(a: &str, b: &str) -> (same: bool)
    ensures
        same == (a@ == b@),
{
    let x = chars_of(a);
    let y = chars_of(b);
    if x.len() != y.len() {
        return false;
    }
    let mut i: usize = 0;
    while i < x.len()
        invariant
            x@ == a@,
            y@ == b@,
            x.len() == y.len(),
            i <= x.len(),
            forall|j: int| 0 <= j < i ==> x@[j] == y@[j],
        decreases x.len() - i,
    {
        if x[i] != y[i] {
            assert(x@[i as int] != y@[i as int]);
            return false;
        }
        i = i + 1;
    }
    assert(x@ =~= y@);
    true
}

/// `String::from_iter`: the string made of the given characters, in order.
#[verifier::external_body]
pub fn string_of_chars(chars: &Vec<char>) -> (s: String)
    ensures
        s@ == chars@,
{
    chars.iter().collect()
}

/// What `char::to_uppercase` yields for a character: its Unicode upper-case mapping.
pub uninterp spec fn char_uppercase(c: char) -> Seq<char>;

/// The ASCII upper-case form of an ASCII character.
pub open spec fn ascii_upper(c: char) -> char {
    if 'a' <= c <= 'z' {
        ((c as u32) - 32) as char
    } else {
        c
    }
}

/// `char::to_uppercase`, collected: the characters of the Unicode upper-case
/// mapping of `c`, one or more; for an ASCII character it is its ASCII
/// upper-case form alone. Of other characters nothing is stated beyond that
/// the result is this mapping.
#[verifier::external_body]
pub fn uppercase_of(c: char) -> (u: Vec<char>)
    ensures
        u@ == char_uppercase(c),
        1 <= u@.len(),
        (c as u32) < 128 ==> u@ == seq![ascii_upper(c)],
{
    c.to_uppercase().collect()
}

} // verus!
