//! Character classes, whitespace tokenization of the input buffer, and the
//! few string primitives the console needs.

use vstd::prelude::*;
use vstd::string::StrSliceExecFns;

verus! {

/// The characters the tokenizer treats as separators: the Unicode
/// `White_Space` set.
pub open spec fn is_space_char(c: char) -> bool {
    let u = c as u32;
    (0x09 <= u && u <= 0x0D) || u == 0x20 || u == 0x85 || u == 0xA0 || u == 0x1680 || (0x2000
        <= u && u <= 0x200A) || u == 0x2028 || u == 0x2029 || u == 0x202F || u == 0x205F || u
        == 0x3000
}

pub fn is_space(c: char) -> (r: bool)
    ensures
        r == is_space_char(c),
{
    let u = c as u32;
    (0x09 <= u && u <= 0x0D) || u == 0x20 || u == 0x85 || u == 0xA0 || u == 0x1680 || (0x2000
        <= u && u <= 0x200A) || u == 0x2028 || u == 0x2029 || u == 0x202F || u == 0x205F || u
        == 0x3000
}

/// The ASCII control characters, which the console never echoes.
pub open spec fn is_control_char(c: char) -> bool {
    (c as u32) < 0x20 || (c as u32) == 0x7F
}

pub fn is_control(c: char) -> (r: bool)
    ensures
        r == is_control_char(c),
{
    (c as u32) < 0x20 || (c as u32) == 0x7F
}

/// The contents of a sequence of strings, character by character.
pub open spec fn string_views(s: Seq<String>) -> Seq<Seq<char>> {
    s.map_values(|x: String| x@)
}

/// The whitespace-separated tokens of `s`, in order, with no empty tokens.
pub open spec fn toks(s: Seq<char>) -> Seq<Seq<char>>
    decreases s.len(),
{
    if s.len() == 0 {
        Seq::empty()
    } else {
        let rest = toks(s.skip(1));
        if is_space_char(s[0]) {
            rest
        } else if s.len() > 1 && !is_space_char(s[1]) {
            seq![seq![s[0]] + rest[0]] + rest.skip(1)
        } else {
            seq![seq![s[0]]] + rest
        }
    }
}

pub proof fn lemma_toks_nonempty(s: Seq<char>)
    requires
        s.len() > 0,
        !is_space_char(s[0]),
    ensures
        toks(s).len() > 0,
{
}

pub proof fn lemma_string_views_push(s: Seq<String>, x: String)
    ensures
        string_views(s.push(x)) == string_views(s).push(x@),
{
    assert(string_views(s.push(x)) =~= string_views(s).push(x@));
}

/// Relies on String::push: appends the character to the end of the string.
#[verifier::external_body]
pub fn push_char_onto(s: &mut String, c: char)
    ensures
        final(s)@ == old(s)@.push(c),
{
    s.push(c)
}

/// Relies on String::pop: removes and returns the last character, or returns
/// None and leaves the string alone when it is empty.
#[verifier::external_body]
pub fn pop_char(s: &mut String) -> (r: Option<char>)
    ensures
        old(s)@.len() == 0 ==> final(s)@ == old(s)@ && r is None,
        old(s)@.len() > 0 ==> final(s)@ == old(s)@.drop_last() && r == Some(old(s)@.last()),
{
    s.pop()
}

fn toks_from(s: &str, i: usize) -> (r: Vec<String>)
    requires
        i <= s@.len(),
    ensures
        string_views(r@) == toks(s@.skip(i as int)),
    decreases s@.len() - i,
{
    let n = s.unicode_len();
    if i == n {
        let r: Vec<String> = Vec::new();
        proof {
            assert(string_views(r@) =~= toks(s@.skip(i as int)));
        }
        r
    } else {
        let c = s.get_char(i);
        let mut rest = toks_from(s, i + 1);
        proof {
            assert(s@.skip(i as int).skip(1) =~= s@.skip(i as int + 1));
            assert(s@.skip(i as int)[0] == s@[i as int]);
        }
        if is_space(c) {
            rest
        } else if i + 1 < n && !is_space(s.get_char(i + 1)) {
            proof {
                assert(s@.skip(i as int)[1] == s@[i as int + 1]);
                assert(s@.skip(i as int + 1)[0] == s@[i as int + 1]);
                lemma_toks_nonempty(s@.skip(i as int + 1));
            }
            let first = rest.remove(0);
            let mut t = String::new();
            push_char_onto(&mut t, c);
            t.append(first.as_str());
            rest.insert(0, t);
            proof {
                assert(string_views(rest@) =~~= toks(s@.skip(i as int)));
            }
            rest
        } else {
            let mut t = String::new();
            push_char_onto(&mut t, c);
            rest.insert(0, t);
            proof {
                assert(string_views(rest@) =~~= toks(s@.skip(i as int)));
            }
            rest
        }
    }
}

/// The console's view of a submitted line: its whitespace-separated tokens.
pub fn tokenize(s: &str) -> (r: Vec<String>)
    ensures
        string_views(r@) == toks(s@),
{
    let r = toks_from(s, 0);
    proof {
        assert(s@.skip(0) =~= s@);
    }
    r
}

} // verus!
