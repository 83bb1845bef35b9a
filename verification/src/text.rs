//! Text as sequences of characters.
use vstd::prelude::*;
use vstd::std_specs::iter::IteratorSpec;
use vstd::string::{StringExecFns, StringSliceAdditionalSpecFns};
use vstd::utf8::{
    decode_utf8, encode_utf8, encode_utf8_decode_utf8, encode_utf8_valid_utf8, is_char_boundary,
    is_char_boundary_iff_not_is_continuation_byte, is_char_boundary_start_end_of_seq,
    valid_utf8_split,
};

verus! {

/// Whether a character is an uppercase letter, as Unicode defines it.
pub uninterp spec fn uppercase(c: char) -> bool;

/// `char::is_uppercase` of the standard library: the result depends on the
/// character alone, and is the property that `uppercase` names. Among the
/// characters of ASCII the uppercase letters are `A` to `Z` and no others.
pub assume_specification[ char::is_uppercase ](c: char) -> (upper: bool)
    ensures
        upper == uppercase(c),
        (c as u32) < 128 ==> upper == ('A' <= c && c <= 'Z'),
;

/// `String::push` of the standard library appends one character.
pub assume_specification[ String::push ](text: &mut String, c: char)
    ensures
        final(text)@ == old(text)@.push(c),
;

/// Characters are plain data already: a list of them is its own deep view.
pub proof fn lemma_chars_view(chars: Vec<char>)
    ensures
        chars.deep_view() == chars@,
{
    assert(chars.deep_view() =~= chars@);
}

/// The characters of a string.
pub fn chars_of(text: &str) -> (chars: Vec<char>)
    ensures
        chars@ == text@,
{
    let mut chars: Vec<char> = Vec::new();
    let mut rest = text.chars();
    loop
        invariant
            chars@ + rest.remaining() == text@,
            rest.decrease() is Some,
        ensures
            chars@ == text@,
        decreases rest.decrease()->0,
    {
        match rest.next() {
            Some(c) => {
                chars.push(c);
            },
            None => {
                assert(chars@ =~= text@);
                break ;
            },
        }
    }
    chars
}

/// The string made of the given characters.
pub fn string_of(chars: &Vec<char>) -> (text: String)
    ensures
        text@ == chars@,
{
    let mut text = String::new();
    let mut i: usize = 0;
    while i < chars.len()
        invariant
            i <= chars.len(),
            text@ == chars@.take(i as int),
        decreases chars.len() - i,
    {
        text.push(chars[i]);
        i += 1;
    }
    text
}

/// Whether the byte offset `at` into the UTF-8 form of `text` falls between
/// two characters, or at one of its ends.
pub open spec fn falls_between(text: Seq<char>, at: int) -> bool {
    is_char_boundary(encode_utf8(text), at)
}

/// The part of `text` between two byte offsets into its UTF-8 form. Offsets
/// that are out of order or do not fall between characters give no text.
pub open spec fn between(text: Seq<char>, from: int, to: int) -> Seq<char> {
    if 0 <= from <= to && falls_between(text, from) && falls_between(text, to) {
        decode_utf8(encode_utf8(text).subrange(from, to))
    } else {
        Seq::empty()
    }
}

/// The number of bytes of the UTF-8 form of `text`.
pub open spec fn byte_len(text: Seq<char>) -> int {
    encode_utf8(text).len() as int
}

/// From its first byte to its last, a text is the whole text.
pub proof fn lemma_between_ends(text: Seq<char>)
    ensures
        between(text, 0, byte_len(text)) == text,
{
    let bytes = encode_utf8(text);
    encode_utf8_valid_utf8(text);
    is_char_boundary_start_end_of_seq(bytes);
    assert(bytes.subrange(0, bytes.len() as int) =~= bytes);
    encode_utf8_decode_utf8(text);
}

/// The part of `text` between two byte offsets.
pub fn slice<'a>(text: &'a str, from: usize, to: usize) -> (part: &'a str)
    ensures
        part@ == between(text@, from as int, to as int),
{
    if from <= to && text.is_char_boundary(to) && text.is_char_boundary(from) {
        let ghost bytes = text.spec_bytes();
        let (head, _) = text.split_at(to);
        proof {
            encode_utf8_valid_utf8(text@);
            valid_utf8_split(bytes, to as int);
            let front = bytes.subrange(0, to as int);
            assert(head.spec_bytes() == front);
            if from == to {
                is_char_boundary_start_end_of_seq(front);
            } else if from > 0 {
                is_char_boundary_iff_not_is_continuation_byte(bytes, from as int);
                is_char_boundary_iff_not_is_continuation_byte(front, from as int);
            }
        }
        let (_, part) = head.split_at(from);
        proof {
            assert(part.spec_bytes() =~= bytes.subrange(from as int, to as int));
            encode_utf8_decode_utf8(part@);
        }
        part
    } else {
        proof {
            reveal_strlit("");
        }
        let part = "";
        assert(part@ =~= Seq::<char>::empty());
        part
    }
}

/// The texts one after another, `between` between each two.
pub open spec fn joined(texts: Seq<Seq<char>>, between: Seq<char>) -> Seq<char>
    decreases texts.len(),
{
    if texts.len() == 0 {
        Seq::empty()
    } else if texts.len() == 1 {
        texts[0]
    } else {
        joined(texts.drop_last(), between) + between + texts.last()
    }
}

/// Writes the texts one after another, `between` between each two.
pub fn join(out: &mut String, texts: &Vec<String>, between: &str)
    ensures
        final(out)@ == old(out)@ + joined(texts.deep_view(), between@),
{
    let ghost before = out@;
    let ghost view = texts.deep_view();
    let mut i: usize = 0;
    assert(out@ =~= before + joined(view.take(0), between@));
    while i < texts.len()
        invariant
            i <= texts.len(),
            view == texts.deep_view(),
            out@ == before + joined(view.take(i as int), between@),
        decreases texts.len() - i,
    {
        assert(view.take(i + 1).drop_last() =~= view.take(i as int));
        assert(view.take(i + 1).last() == texts[i as int]@);
        assert(i == 0 ==> view.take(i + 1)[0] == texts[i as int]@);
        if i > 0 {
            out.append(between);
        }
        out.append(texts[i].as_str());
        assert(out@ =~= before + joined(view.take(i + 1), between@));
        i += 1;
    }
    assert(view.take(i as int) =~= view);
}

/// A copy of a list of texts.
pub fn clone_strings(texts: &Vec<String>) -> (copy: Vec<String>)
    ensures
        copy.deep_view() == texts.deep_view(),
{
    let mut copy: Vec<String> = Vec::new();
    let mut i: usize = 0;
    while i < texts.len()
        invariant
            i <= texts.len(),
            copy.len() == i,
            forall|j: int| 0 <= j < i ==> (#[trigger] copy[j])@ == texts[j]@,
        decreases texts.len() - i,
    {
        copy.push(texts[i].clone());
        i += 1;
    }
    assert(copy.deep_view() =~= texts.deep_view());
    copy
}

/// Whether `part` stands in `whole` at the place `at`.
pub open spec fn stands_at(whole: Seq<char>, at: int, part: Seq<char>) -> bool {
    &&& 0 <= at
    &&& at + part.len() <= whole.len()
    &&& whole.subrange(at, at + part.len()) == part
}

/// Whether `part` stands in `whole` at the place `at`.
pub fn is_at(whole: &Vec<char>, at: usize, part: &Vec<char>) -> (found: bool)
    ensures
        found == stands_at(whole@, at as int, part@),
{
    if at > whole.len() || part.len() > whole.len() - at {
        return false;
    }
    let mut i: usize = 0;
    while i < part.len()
        invariant
            i <= part.len(),
            at + part.len() <= whole.len(),
            whole@.subrange(at as int, at + i) == part@.take(i as int),
        decreases part.len() - i,
    {
        if whole[at + i] != part[i] {
            assert(whole@.subrange(at as int, at + part.len())[i as int] != part@[i as int]);
            return false;
        }
        assert(whole@.subrange(at as int, at + i + 1) =~= whole@.subrange(at as int, at + i).push(
            whole@[at + i],
        ));
        assert(part@.take(i + 1) =~= part@.take(i as int).push(part@[i as int]));
        i += 1;
    }
    assert(part@.take(i as int) =~= part@);
    true
}

/// The string that holds the one character `c`.
pub fn char_text(c: char) -> (text: String)
    ensures
        text@ == seq![c],
{
    let mut text = String::new();
    text.push(c);
    assert(text@ =~= seq![c]);
    text
}

/// Whether `text` is the one character `c`.
pub fn is_char(text: &str, c: char) -> (same: bool)
    ensures
        same == (text@ == seq![c]),
{
    let chars = chars_of(text);
    let same = chars.len() == 1 && chars[0] == c;
    assert(same ==> text@ =~= seq![c]);
    same
}

} // verus!
