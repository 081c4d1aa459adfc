//! Flattened identifiers for methods exposed as free functions.
use vstd::prelude::*;

verus! {

/// An ASCII capital letter.
pub open spec fn is_upper(c: char) -> bool {
    'A' <= c && c <= 'Z'
}

/// The ASCII lower-case form of `c`.
pub open spec fn lower(c: char) -> char {
    if is_upper(c) {
        ((c as u32) + 32) as char
    } else {
        c
    }
}

/// What the character at `i` of the path `s` becomes: a `::` separator becomes one
/// underscore; a capital letter is lowered, and preceded by an underscore unless it starts
/// a segment.
pub open spec fn snake_step(s: Seq<char>, i: int) -> Seq<char> {
    let c = s[i];
    if c == ':' {
        if i > 0 && s[i - 1] == ':' {
            seq!['_']
        } else {
            Seq::empty()
        }
    } else if is_upper(c) {
        if i == 0 || s[i - 1] == ':' {
            seq![lower(c)]
        } else {
            seq!['_', lower(c)]
        }
    } else {
        seq![c]
    }
}

/// Snake case of an upper-camel-case path: each segment in snake case, segments joined
/// by an underscore.
pub open spec fn snake(s: Seq<char>) -> Seq<char>
    decreases s.len(),
{
    if s.len() == 0 {
        Seq::empty()
    } else {
        snake(s.drop_last()) + snake_step(s, s.len() - 1)
    }
}

/// Relies on `String::push`: appends one character.
#[verifier::external_body]
fn push_char(s: &mut String, c: char)
    ensures
        final(s)@ == old(s)@.push(c),
{
    s.push(c)
}

fn lower_char(c: char) -> (r: char)
    ensures
        r == lower(c),
{
    if 'A' <= c && c <= 'Z' {
        let u = (c as u8) + 32;
        u as char
    } else {
        c
    }
}

/// The snake-case form of `s`.
pub fn to_snake_case(s: &str) -> (r: String)
    ensures
        r@ == snake(s@),
{
    let n = s.unicode_len();
    let mut r = String::new();
    let mut i: usize = 0;
    while i < n
        invariant
            i <= n,
            n == s@.len(),
            r@ == snake(s@.take(i as int)),
        decreases n - i,
    {
        let c = s.get_char(i);
        let prev = if i > 0 {
            s.get_char(i - 1)
        } else {
            ' '
        };
        let ghost t = s@.take(i + 1);
        assert(t.drop_last() =~= s@.take(i as int));
        assert(t[i as int] == c);
        assert(i > 0 ==> t[i - 1] == prev);
        if c == ':' {
            if i > 0 && prev == ':' {
                push_char(&mut r, '_');
            }
        } else if 'A' <= c && c <= 'Z' {
            if i > 0 && prev != ':' {
                push_char(&mut r, '_');
            }
            push_char(&mut r, lower_char(c));
        } else {
            push_char(&mut r, c);
        }
        assert(r@ =~= snake(t));
        i += 1;
    }
    assert(s@.take(n as int) =~= s@);
    r
}

} // verus!
