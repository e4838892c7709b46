//! Small verified string helpers shared by the topic, identifier and
//! client-id builders.

use vstd::prelude::*;

verus! {

/// Relies on std's `String::push`: appends one character at the end.
#[verifier::external_body]
pub fn push_char(s: &mut String, c: char)
    ensures
        final(s)@ == old(s)@.push(c),
{
    s.push(c);
}

/// Character-for-character string equality.
pub fn str_eq(a: &str, b: &str) -> (r: bool)
    ensures
        r == (a@ == b@),
{
    let a_len: usize = a.unicode_len();
    let b_len: usize = b.unicode_len();
    if a_len != b_len {
        return false;
    }
    let mut i: usize = 0;
    while i < a_len
        invariant
            a_len == a@.len(),
            b_len == b@.len(),
            a_len == b_len,
            i <= a_len,
            forall|j: int| 0 <= j < i ==> a@[j] == b@[j],
        decreases a_len - i,
    {
        if a.get_char(i) != b.get_char(i) {
            return false;
        }
        i = i + 1;
    }
    proof {
        assert(a@ =~= b@);
    }
    true
}

/// What `snake_case` does to one character: ASCII upper case folds to
/// lower case, a space becomes an underscore, everything else is kept.
pub open spec fn snake_char(c: char) -> char {
    if c == ' ' {
        '_'
    } else if 'A' <= c && c <= 'Z' {
        ((c as u8) + 32) as char
    } else {
        c
    }
}

/// What `snake_case` does to a whole name.
pub open spec fn snake_seq(s: Seq<char>) -> Seq<char> {
    Seq::new(s.len(), |i: int| snake_char(s[i]))
}

/// Folds a human-readable name into a topic-safe identifier:
/// lower case, spaces replaced by underscores.
pub fn snake_case(s: &str) -> (r: String)
    ensures
        r@ == snake_seq(s@),
{
    let len: usize = s.unicode_len();
    let mut out = String::new();
    let mut i: usize = 0;
    while i < len
        invariant
            len == s@.len(),
            i <= len,
            out@ == Seq::new(i as nat, |j: int| snake_char(s@[j])),
        decreases len - i,
    {
        let c = s.get_char(i);
        let folded: char = if c == ' ' {
            '_'
        } else if 'A' <= c && c <= 'Z' {
            ((c as u8) + 32) as char
        } else {
            c
        };
        assert(folded == snake_char(s@[i as int]));
        push_char(&mut out, folded);
        proof {
            assert(out@ =~= Seq::new((i + 1) as nat, |j: int| snake_char(s@[j])));
        }
        i = i + 1;
    }
    out
}

} // verus!
