//! Identifier spelling.

use vstd::prelude::*;

verus! {

/// The upper-case letter of an ASCII lower-case letter; any other
/// character unchanged.
pub open spec fn spec_ascii_upper(c: char) -> char {
    if 'a' <= c <= 'z' {
        ((c as u32) - 32) as char
    } else {
        c
    }
}

/// `s` in CamelCase: the underscores dropped, and the first character of
/// `s` and each character that follows an underscore in upper case.
pub open spec fn spec_snake_to_camel(s: Seq<char>) -> Seq<char>
    decreases s.len(),
{
    if s.len() == 0 {
        Seq::empty()
    } else {
        let i = s.len() - 1;
        let rest = spec_snake_to_camel(s.drop_last());
        if s[i] == '_' {
            rest
        } else if i == 0 || s[i - 1] == '_' {
            rest.push(spec_ascii_upper(s[i]))
        } else {
            rest.push(s[i])
        }
    }
}

pub fn ascii_upper(c: char) -> (r: char)
    ensures
        r == spec_ascii_upper(c),
{
    if 'a' <= c && c <= 'z' {
        let b: u8 = c as u8;
        let r = (b - 32) as char;
        assert(r == ((c as u32) - 32) as char);
        r
    } else {
        c
    }
}

/// Append `tail` to `s`.
pub(crate) fn push_str(s: &mut String, tail: &str)
    ensures
        final(s)@ == old(s)@ + tail@,
{
    s.append(tail);
}

/// Calls `String::push`: the string with the character appended, as its
/// documentation says.
#[verifier::external_body]
pub(crate) fn string_push(s: &mut String, c: char)
    ensures
        final(s)@ == old(s)@.push(c),
{
    s.push(c)
}

/// `s` in CamelCase (see [`spec_snake_to_camel`]).
pub fn snake_to_camel(s: &str) -> (r: String)
    ensures
        r@ == spec_snake_to_camel(s@),
{
    let n = s.unicode_len();
    let mut out = String::new();
    let mut i: usize = 0;
    let mut prev_underscore = true;
    assert(s@.take(0) =~= Seq::<char>::empty());
    while i < n
        invariant
            n == s@.len(),
            i <= n,
            out@ == spec_snake_to_camel(s@.take(i as int)),
            prev_underscore == (i == 0 || s@[i - 1] == '_'),
        decreases n - i,
    {
        let c = s.get_char(i);
        assert(s@.take(i + 1).drop_last() =~= s@.take(i as int));
        if c == '_' {
            prev_underscore = true;
        } else if prev_underscore {
            string_push(&mut out, ascii_upper(c));
            prev_underscore = false;
        } else {
            string_push(&mut out, c);
        }
        i = i + 1;
    }
    assert(s@.take(n as int) =~= s@);
    out
}

/// CamelCase text holds no underscore.
pub proof fn lemma_snake_to_camel_no_underscore(s: Seq<char>)
    ensures
        !spec_snake_to_camel(s).contains('_'),
    decreases s.len(),
{
    if s.len() > 0 {
        lemma_snake_to_camel_no_underscore(s.drop_last());
        let rest = spec_snake_to_camel(s.drop_last());
        let c = s[s.len() - 1];
        if c != '_' {
            assert(spec_ascii_upper(c) != '_');
            let r = spec_snake_to_camel(s);
            assert forall|i: int| 0 <= i < r.len() implies r[i] != '_' by {
                if i < rest.len() {
                    assert(!rest.contains('_'));
                    assert(r[i] == rest[i]);
                }
            }
        }
    }
}

} // verus!
