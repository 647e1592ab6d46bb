use vstd::prelude::*;

verus! {

/// Relies on `String::push`, which appends one character at the end.
#[verifier::external_body]
fn push_char(s: &mut String, c: char)
    ensures
        final(s)@ == old(s)@.push(c),
{
    s.push(c)
}

/// The number of characters of `s`.
pub fn char_len(s: &str) -> (r: usize)
    ensures
        r == s@.len(),
{
    s.unicode_len()
}

/// `s` with `c` put in before its character at offset `at`.
pub fn insert_char_at(s: &str, at: usize, c: char) -> (r: String)
    requires
        at <= s@.len(),
    ensures
        r@ == s@.insert(at as int, c),
{
    let n = s.unicode_len();
    let mut r = String::from_str(s.substring_char(0, at));
    push_char(&mut r, c);
    r.append(s.substring_char(at, n));
    proof {
        assert(r@ =~= s@.insert(at as int, c));
    }
    r
}

/// `s` without its character at offset `at`.
pub fn remove_char_at(s: &str, at: usize) -> (r: String)
    requires
        at < s@.len(),
    ensures
        r@ == s@.remove(at as int),
{
    let n = s.unicode_len();
    let mut r = String::from_str(s.substring_char(0, at));
    r.append(s.substring_char(at + 1, n));
    proof {
        assert(r@ =~= s@.remove(at as int));
    }
    r
}

} // verus!
