//! Text that comes back from the selector: decoding it and stripping the
//! white space around it.

use vstd::prelude::*;
use vstd::utf8::{decode_utf8, encode_utf8, valid_utf8};
use crate::error::{ErrorView, SelectionError};

verus! {

/// The error of `String::from_utf8`. It is passed on unopened.
#[verifier::external_type_specification]
#[verifier::external_body]
pub struct ExFromUtf8Error(std::string::FromUtf8Error);

/// `String::from_utf8` accepts exactly the byte strings that are valid UTF-8,
/// and the string it then returns is made of the bytes it was given.
pub assume_specification[ String::from_utf8 ](bytes: Vec<u8>) -> (decoded: Result<
    String,
    std::string::FromUtf8Error,
>)
    ensures
        decoded is Ok <==> valid_utf8(bytes@),
        decoded matches Ok(text) ==> encode_utf8(text@) == bytes@,
;

/// Whether a character is white space: the characters that Unicode marks
/// `White_Space`.
pub open spec fn white_space(c: char) -> bool {
    let code = c as u32;
    ||| 0x09 <= code <= 0x0d
    ||| code == 0x20
    ||| code == 0x85
    ||| code == 0xa0
    ||| code == 0x1680
    ||| 0x2000 <= code <= 0x200a
    ||| code == 0x2028
    ||| code == 0x2029
    ||| code == 0x202f
    ||| code == 0x205f
    ||| code == 0x3000
}

/// Tells whether `c` is white space.
pub fn is_white_space(c: char) -> (blank: bool)
    ensures
        blank == white_space(c),
{
    let code: u32 = c as u32;
    (0x09 <= code && code <= 0x0d) || code == 0x20 || code == 0x85 || code == 0xa0 || code
        == 0x1680 || (0x2000 <= code && code <= 0x200a) || code == 0x2028 || code == 0x2029 || code
        == 0x202f || code == 0x205f || code == 0x3000
}

/// `s` without the white space at its start.
pub open spec fn trim_start(s: Seq<char>) -> Seq<char>
    decreases s.len(),
{
    if s.len() > 0 && white_space(s.first()) {
        trim_start(s.drop_first())
    } else {
        s
    }
}

/// `s` without the white space at its end.
pub open spec fn trim_end(s: Seq<char>) -> Seq<char>
    decreases s.len(),
{
    if s.len() > 0 && white_space(s.last()) {
        trim_end(s.drop_last())
    } else {
        s
    }
}

/// `s` without the white space around it.
pub open spec fn trimmed(s: Seq<char>) -> Seq<char> {
    trim_end(trim_start(s))
}

/// `core` is `s` with the white space around it taken off, `start`
/// characters in front and the characters from `end` on behind: all of those
/// are white space, and what is left neither begins nor ends with white
/// space.
pub open spec fn is_core_of(s: Seq<char>, core: Seq<char>, start: int, end: int) -> bool {
    &&& 0 <= start <= end <= s.len()
    &&& core == s.subrange(start, end)
    &&& forall|i: int| 0 <= i < start ==> white_space(#[trigger] s[i])
    &&& forall|i: int| end <= i < s.len() ==> white_space(#[trigger] s[i])
    &&& start < end ==> !white_space(s[start]) && !white_space(s[end - 1])
}

proof fn lemma_trim_start_cuts(s: Seq<char>) -> (start: int)
    ensures
        0 <= start <= s.len(),
        trim_start(s) == s.skip(start),
        forall|i: int| 0 <= i < start ==> white_space(#[trigger] s[i]),
        start < s.len() ==> !white_space(s[start]),
    decreases s.len(),
{
    if s.len() > 0 && white_space(s.first()) {
        let rest = s.drop_first();
        let inner = lemma_trim_start_cuts(rest);
        assert(rest.skip(inner) =~= s.skip(inner + 1));
        assert forall|i: int| 0 <= i < inner + 1 implies white_space(#[trigger] s[i]) by {
            if i > 0 {
                assert(s[i] == rest[i - 1]);
            }
        }
        if inner + 1 < s.len() {
            assert(s[inner + 1] == rest[inner]);
        }
        inner + 1
    } else {
        assert(s.skip(0) =~= s);
        0
    }
}

proof fn lemma_trim_end_cuts(s: Seq<char>) -> (end: int)
    ensures
        0 <= end <= s.len(),
        trim_end(s) == s.take(end),
        forall|i: int| end <= i < s.len() ==> white_space(#[trigger] s[i]),
        0 < end ==> !white_space(s[end - 1]),
    decreases s.len(),
{
    if s.len() > 0 && white_space(s.last()) {
        let rest = s.drop_last();
        let inner = lemma_trim_end_cuts(rest);
        assert(rest.take(inner) =~= s.take(inner));
        assert forall|i: int| inner <= i < s.len() implies white_space(#[trigger] s[i]) by {
            if i < rest.len() {
                assert(s[i] == rest[i]);
            }
        }
        if 0 < inner {
            assert(s[inner - 1] == rest[inner - 1]);
        }
        inner
    } else {
        assert(s.take(s.len() as int) =~= s);
        s.len() as int
    }
}

/// Trimming takes off white space at the two ends and nothing else: what it
/// returns is one stretch of the text, everything before and after the
/// stretch is white space, and the stretch begins and ends with a character
/// that is not.
pub proof fn lemma_trimmed_is_core(s: Seq<char>)
    ensures
        exists|start: int, end: int| is_core_of(s, trimmed(s), start, end),
{
    let start = lemma_trim_start_cuts(s);
    let tail = s.skip(start);
    let cut = lemma_trim_end_cuts(tail);
    let end = start + cut;
    assert(tail.take(cut) =~= s.subrange(start, end));
    assert forall|i: int| end <= i < s.len() implies white_space(#[trigger] s[i]) by {
        assert(s[i] == tail[i - start]);
    }
    if cut > 0 {
        assert(s[end - 1] == tail[cut - 1]);
        assert(s[start] == tail[0]);
    }
    assert(is_core_of(s, trimmed(s), start, end));
}

fn chars_of(text: &str) -> (chars: Vec<char>)
    ensures
        chars@ == text@,
{
    let mut chars: Vec<char> = Vec::new();
    for c in it: text.chars()
        invariant
            it.seq() == text@,
            chars@ == it.seq().take(it.index() as int),
    {
        chars.push(c);
        assert(it.seq().take(it.index() + 1) =~= it.seq().take(it.index() as int).push(c));
    }
    assert(text@.take(text@.len() as int) =~= text@);
    chars
}

/// Strips the white space around `text`.
pub fn trim(text: &str) -> (core: String)
    ensures
        core@ == trimmed(text@),
{
    let chars = chars_of(text);
    let mut start: usize = 0;
    assert(chars@.skip(0) =~= chars@);
    while start < chars.len() && is_white_space(chars[start])
        invariant
            start <= chars.len(),
            trim_start(chars@) == trim_start(chars@.skip(start as int)),
        decreases chars.len() - start,
    {
        assert(chars@.skip(start as int).drop_first() =~= chars@.skip(start + 1));
        start += 1;
    }
    let mut end: usize = chars.len();
    assert(chars@.subrange(start as int, end as int) =~= chars@.skip(start as int));
    while end > start && is_white_space(chars[end - 1])
        invariant
            start <= end <= chars.len(),
            trimmed(chars@) == trim_end(chars@.subrange(start as int, end as int)),
        decreases end - start,
    {
        assert(chars@.subrange(start as int, end as int).drop_last() =~= chars@.subrange(
            start as int,
            end - 1,
        ));
        end -= 1;
    }
    text.substring_char(start, end).to_owned()
}

/// The text that a selector printed: its output decoded, without the white
/// space around it; `None` where the output is no UTF-8.
pub open spec fn selection_text(output: Seq<u8>) -> Option<Seq<char>> {
    if valid_utf8(output) {
        Some(trimmed(decode_utf8(output)))
    } else {
        None
    }
}

/// Reads what a selector printed. Output that is no UTF-8 is an error.
pub fn read_selection(output: Vec<u8>) -> (read: Result<String, SelectionError>)
    ensures
        match read {
            Ok(text) => selection_text(output@) == Some(text@),
            Err(error) => selection_text(output@) is None && error@ == ErrorView::Decode,
        },
{
    match String::from_utf8(output) {
        Ok(text) => {
            proof {
                vstd::utf8::encode_utf8_decode_utf8(text@);
            }
            Ok(trim(text.as_str()))
        },
        Err(_) => Err(SelectionError::Decode),
    }
}

} // verus!
