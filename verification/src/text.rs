//! Text: reading bytes as UTF-8, and white space at the ends of a text.

use vstd::prelude::*;
use vstd::std_specs::iter::IteratorSpec;
use vstd::string::{axiom_spec_iter, next_postcondition, StrSliceExecFns};
use vstd::utf8::{
    decode_utf8, encode_utf8, encode_utf8_decode_utf8, encode_utf8_valid_utf8, valid_utf8,
};

verus! {

/// The error of `String::from_utf8`.
#[verifier::external_type_specification]
#[verifier::external_body]
pub struct ExFromUtf8Error(std::string::FromUtf8Error);

/// Whether a character is white space: one of the characters that Unicode
/// gives the property `White_Space`.
pub open spec fn is_white_space(c: char) -> bool {
    let n = c as u32;
    (0x09 <= n <= 0x0d) || n == 0x20 || n == 0x85 || n == 0xa0 || n == 0x1680 || (0x2000 <= n
        <= 0x200a) || n == 0x2028 || n == 0x2029 || n == 0x202f || n == 0x205f || n == 0x3000
}

/// Whether a text is empty or white space only.
pub open spec fn is_blank(text: Seq<char>) -> bool {
    forall|i: int| 0 <= i < text.len() ==> is_white_space(#[trigger] text[i])
}

/// Whether `i` is the place of the first character of `text` that is not
/// white space.
pub open spec fn is_first_mark(text: Seq<char>, i: int) -> bool {
    &&& 0 <= i < text.len()
    &&& !is_white_space(text[i])
    &&& forall|j: int| 0 <= j < i ==> is_white_space(#[trigger] text[j])
}

/// Whether `i` is the place of the last character of `text` that is not
/// white space.
pub open spec fn is_last_mark(text: Seq<char>, i: int) -> bool {
    &&& 0 <= i < text.len()
    &&& !is_white_space(text[i])
    &&& forall|j: int| i < j < text.len() ==> is_white_space(#[trigger] text[j])
}

/// A text without the white space at its two ends: nothing for a blank text,
/// and for any other the part from its first to its last character that is
/// not white space.
pub open spec fn trimmed(text: Seq<char>) -> Seq<char> {
    if is_blank(text) {
        Seq::<char>::empty()
    } else {
        text.subrange(
            choose|i: int| is_first_mark(text, i),
            (choose|i: int| is_last_mark(text, i)) + 1,
        )
    }
}

/// Calls `String::from_utf8`, which succeeds exactly on valid UTF-8 and then
/// holds the very bytes it was given.
#[verifier::external_body]
fn string_from_utf8(bytes: Vec<u8>) -> (r: Result<String, std::string::FromUtf8Error>)
    ensures
        r is Ok == valid_utf8(bytes@),
        r matches Ok(text) ==> encode_utf8(text@) == bytes@,
{
    String::from_utf8(bytes)
}

/// The text that `bytes` encode, where they are valid UTF-8.
pub open spec fn text_of(bytes: Seq<u8>) -> Option<Seq<char>> {
    if valid_utf8(bytes) {
        Some(decode_utf8(bytes))
    } else {
        None
    }
}

/// Reads bytes as UTF-8 text.
pub fn text_from_bytes(bytes: Vec<u8>) -> (r: Option<String>)
    ensures
        r.is_some() == text_of(bytes@).is_some(),
        r matches Some(text) ==> Some(text@) == text_of(bytes@),
{
    match string_from_utf8(bytes) {
        Ok(text) => {
            proof {
                encode_utf8_decode_utf8(text@);
            }
            Some(text)
        },
        Err(_) => None,
    }
}

/// Whether a character is white space.
pub fn white_space(c: char) -> (b: bool)
    ensures
        b == is_white_space(c),
{
    let n: u32 = c as u32;
    (0x09 <= n && n <= 0x0d) || n == 0x20 || n == 0x85 || n == 0xa0 || n == 0x1680 || (0x2000 <= n
        && n <= 0x200a) || n == 0x2028 || n == 0x2029 || n == 0x202f || n == 0x205f || n == 0x3000
}

/// The places of the first and of the last character that is not white
/// space, the second counted one further; nothing for a blank text.
fn marks(text: &str) -> (r: Option<(usize, usize)>)
    ensures
        r.is_none() == is_blank(text@),
        r matches Some((first, end)) ==> is_first_mark(text@, first as int) && is_last_mark(
            text@,
            end - 1,
        ) && first < end <= text@.len(),
{
    broadcast use {axiom_spec_iter, next_postcondition};

    let len = text.unicode_len();
    let mut chars = text.chars();
    let mut found: Option<(usize, usize)> = None;
    let mut i: usize = 0;
    proof {
        assert(chars.remaining() =~= text@.skip(0));
    }
    while i < len
        invariant
            0 <= i <= len == text@.len(),
            chars.obeys_prophetic_iter_laws(),
            chars.remaining() == text@.skip(i as int),
            found.is_none() ==> forall|j: int| 0 <= j < i ==> is_white_space(#[trigger] text@[j]),
            found matches Some((first, end)) ==> is_first_mark(text@, first as int) && first < end
                <= i && !is_white_space(text@[end - 1]) && forall|j: int|
                end <= j < i ==> is_white_space(#[trigger] text@[j]),
        decreases len - i,
    {
        let ghost before = chars.remaining();
        let next = chars.next();
        proof {
            assert(before.len() > 0);
            assert(before[0] == text@[i as int]);
            assert(before.drop_first() =~= text@.skip(i + 1));
        }
        match next {
            Some(c) => {
                if !white_space(c) {
                    found = match found {
                        Some((first, _)) => Some((first, i + 1)),
                        None => Some((i, i + 1)),
                    };
                }
            },
            None => {},
        }
        i += 1;
    }
    found
}

/// Whether a text is empty or white space only.
pub fn blank(text: &str) -> (b: bool)
    ensures
        b == is_blank(text@),
{
    marks(text).is_none()
}

/// The first and the last character that is not white space are where they
/// are: a text has one place for each.
proof fn lemma_marks_are_unique(text: Seq<char>, first: int, last: int)
    requires
        is_first_mark(text, first),
        is_last_mark(text, last),
    ensures
        !is_blank(text),
        (choose|i: int| is_first_mark(text, i)) == first,
        (choose|i: int| is_last_mark(text, i)) == last,
        first <= last,
{
    let f = choose|i: int| is_first_mark(text, i);
    let l = choose|i: int| is_last_mark(text, i);
    assert(is_first_mark(text, f));
    assert(is_last_mark(text, l));
    if f < first {
        assert(is_white_space(text[f]));
    }
    if first < f {
        assert(is_white_space(text[first]));
    }
    if l < last {
        assert(is_white_space(text[last]));
    }
    if last < l {
        assert(is_white_space(text[l]));
    }
    if last < first {
        assert(is_white_space(text[last]));
    }
}

/// The text without the white space at its two ends.
pub fn trim_text(text: &str) -> (r: String)
    ensures
        r@ == trimmed(text@),
{
    match marks(text) {
        Some((first, end)) => {
            proof {
                lemma_marks_are_unique(text@, first as int, end - 1);
            }
            text.substring_char(first, end).to_owned()
        },
        None => String::new(),
    }
}

/// Text survives the trip through its bytes.
pub proof fn lemma_text_round_trip(text: Seq<char>)
    ensures
        text_of(encode_utf8(text)) == Some(text),
{
    encode_utf8_valid_utf8(text);
    encode_utf8_decode_utf8(text);
}

/// Trimming takes white space away and nothing else: what is left neither
/// starts nor ends with white space, and a text that neither starts nor ends
/// with white space is left as it is.
pub proof fn lemma_trimmed(text: Seq<char>)
    ensures
        is_blank(text) <==> trimmed(text).len() == 0,
        trimmed(text).len() > 0 ==> !is_white_space(trimmed(text).first()) && !is_white_space(
            trimmed(text).last(),
        ),
        text.len() > 0 && !is_white_space(text.first()) && !is_white_space(text.last())
            ==> trimmed(text) == text,
{
    if !is_blank(text) {
        let k = choose|k: int| 0 <= k < text.len() && !is_white_space(#[trigger] text[k]);
        let first = lemma_first_mark_exists(text, k);
        let last = lemma_last_mark_exists(text, k);
        lemma_marks_are_unique(text, first, last);
        assert(trimmed(text) == text.subrange(first, last + 1));
        assert(trimmed(text).first() == text[first]);
        assert(trimmed(text).last() == text[last]);
        if !is_white_space(text.first()) && !is_white_space(text.last()) {
            if first > 0 {
                assert(is_white_space(text[0]));
            }
            if last < text.len() - 1 {
                assert(is_white_space(text[text.len() - 1]));
            }
            assert(text.subrange(0, text.len() as int) =~= text);
        }
    } else {
        if text.len() > 0 && !is_white_space(text.first()) {
            assert(is_white_space(text[0]));
        }
    }
}

/// A text with a character that is not white space has a first such place.
proof fn lemma_first_mark_exists(text: Seq<char>, k: int) -> (first: int)
    requires
        0 <= k < text.len(),
        !is_white_space(text[k]),
    ensures
        is_first_mark(text, first),
    decreases k,
{
    if forall|j: int| 0 <= j < k ==> is_white_space(#[trigger] text[j]) {
        k
    } else {
        let j = choose|j: int| 0 <= j < k && !is_white_space(#[trigger] text[j]);
        lemma_first_mark_exists(text, j)
    }
}

/// A text with a character that is not white space has a last such place.
proof fn lemma_last_mark_exists(text: Seq<char>, k: int) -> (last: int)
    requires
        0 <= k < text.len(),
        !is_white_space(text[k]),
    ensures
        is_last_mark(text, last),
    decreases text.len() - k,
{
    if forall|j: int| k < j < text.len() ==> is_white_space(#[trigger] text[j]) {
        k
    } else {
        let j = choose|j: int| k < j < text.len() && !is_white_space(#[trigger] text[j]);
        lemma_last_mark_exists(text, j)
    }
}

} // verus!
