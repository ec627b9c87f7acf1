//! Two more codecs of the toolbox: Base64, and text as the numbers of its
//! characters.

use base64::prelude::{Engine, BASE64_STANDARD};
use vstd::prelude::*;
use vstd::utf8::{encode_utf8, is_scalar};
use crate::eml::{text_from_bytes, utf8_lossy};
use crate::number::{
    all_digits, decimal_chars, digits_are_digits, digits_of, is_digit, parse_unsigned, reading_inverts_writing,
    unsigned_of,
};
use crate::text::{chars_of, string_of};

verus! {

/// The Base64 text of `bytes`, in the standard alphabet and padded, as the
/// `base64` crate writes it.
pub uninterp spec fn base64_standard(bytes: Seq<u8>) -> Seq<char>;

/// What the `base64` crate makes of the Base64 text `text`, in the standard
/// alphabet and padded: the bytes, or the message of its error.
pub uninterp spec fn base64_standard_decoding(text: Seq<u8>) -> Result<Seq<u8>, Seq<char>>;

/// The view of what decoding returned.
pub open spec fn outcome_view(outcome: Result<Vec<u8>, String>) -> Result<Seq<u8>, Seq<char>> {
    match outcome {
        Ok(bytes) => Ok(bytes@),
        Err(message) => Err(message@),
    }
}

/// `Engine::encode` of `base64::prelude::BASE64_STANDARD`: the Base64 text
/// of the bytes. The crate gives up where the length of that text does not
/// fit the machine; such input is left out.
#[verifier::external_body]
fn encode_standard(bytes: &[u8]) -> (text: String)
    requires
        bytes@.len() / 3 * 4 + 4 <= usize::MAX,
    ensures
        text@ == base64_standard(bytes@),
{
    BASE64_STANDARD.encode(bytes)
}

/// `Engine::decode` of `base64::prelude::BASE64_STANDARD`: the bytes that
/// the text stands for, or the crate's error as the text that it prints.
#[verifier::external_body]
fn decode_standard(text: &[u8]) -> (outcome: Result<Vec<u8>, String>)
    ensures
        outcome_view(outcome) == base64_standard_decoding(text@),
{
    BASE64_STANDARD.decode(text).map_err(|e| e.to_string())
}

/// `char::from_u32`: the character of a number that is a Unicode scalar
/// value, and nothing for any other number.
pub assume_specification[ char::from_u32 ](i: u32) -> (c: Option<char>)
    ensures
        c == scalar_char(i),
;

/// The character with the number `n`, if there is one.
pub open spec fn scalar_char(n: u32) -> Option<char> {
    if is_scalar(n) {
        Some(n as char)
    } else {
        None
    }
}

/// Writes the UTF-8 form of `raw` as Base64.
pub fn base64_encode(raw: &str) -> (encoded: String)
    requires
        encode_utf8(raw@).len() / 3 * 4 + 4 <= usize::MAX,
    ensures
        encoded@ == base64_standard(encode_utf8(raw@)),
{
    encode_standard(raw.as_bytes())
}

/// What is shown for an attempt to decode: the text of the bytes, in which
/// what is not UTF-8 is replaced, or the message of the error.
pub open spec fn shown_text(outcome: Result<Seq<u8>, Seq<char>>) -> Seq<char> {
    match outcome {
        Ok(bytes) => utf8_lossy(bytes),
        Err(message) => message,
    }
}

/// The text to show for what decoding returned.
pub fn text_of_outcome(outcome: Result<Vec<u8>, String>) -> (text: String)
    ensures
        text@ == shown_text(outcome_view(outcome)),
{
    match outcome {
        Ok(bytes) => text_from_bytes(&bytes),
        Err(message) => message,
    }
}

/// Reads Base64. Where `encoded` is no Base64, the message of the error
/// is returned in place of a text.
pub fn base64_decode(encoded: &str) -> (decoded: String)
    ensures
        decoded@ == shown_text(base64_standard_decoding(encode_utf8(encoded@))),
{
    text_of_outcome(decode_standard(encoded.as_bytes()))
}

/// The numbers of the characters of `s` in decimal notation, parted by
/// single spaces.
pub open spec fn code_points(s: Seq<char>) -> Seq<char>
    decreases s.len(),
{
    if s.len() == 0 {
        Seq::empty()
    } else if s.len() == 1 {
        digits_of(s[0] as u32 as nat)
    } else {
        code_points(s.drop_last()) + seq![' '] + digits_of(s.last() as u32 as nat)
    }
}

/// Writes text as the numbers of its characters.
pub fn unicode_encode(text: &str) -> (encoded: String)
    ensures
        encoded@ == code_points(text@),
{
    let v = chars_of(text);
    let mut out: Vec<char> = Vec::new();
    let mut i: usize = 0;
    assert(v@.take(0) =~= Seq::<char>::empty());
    while i < v.len()
        invariant
            i <= v.len(),
            out@ == code_points(v@.take(i as int)),
        decreases v.len() - i,
    {
        let ghost before = out@;
        if i > 0 {
            out.push(' ');
        }
        let mut digits = decimal_chars(v[i] as u32 as u64);
        proof {
            let taken = v@.take(i + 1);
            assert(taken.drop_last() == v@.take(i as int));
            assert(taken.last() == v@[i as int]);
            assert(taken.len() == i + 1);
            assert(taken[0] == v@[0]);
            assert(digits@ == digits_of(taken.last() as u32 as nat));
            if i > 0 {
                assert(code_points(taken) == before + seq![' '] + digits@);
                assert(before.push(' ') == before + seq![' ']);
            } else {
                assert(before + digits@ == digits@);
            }
        }
        out.append(&mut digits);
        i = i + 1;
    }
    assert(v@.take(v@.len() as int) == v@);
    string_of(&out)
}

/// Whether `c` parts two numbers: a space, a tab, a line feed, a form feed
/// or a carriage return.
pub open spec fn is_blank(c: char) -> bool {
    c == ' ' || c == '\t' || c == '\n' || c == '\x0C' || c == '\r'
}

/// The character that the word `token` writes the number of, if it writes
/// one.
pub open spec fn character_of(token: Seq<char>) -> Option<char> {
    match unsigned_of(token, u32::MAX as nat) {
        Some(n) => scalar_char(n as u32),
        None => None,
    }
}

/// What a word adds to the text: its character, if it is a word and has
/// one.
pub open spec fn flushed(token: Seq<char>) -> Seq<char> {
    if token.len() == 0 {
        Seq::empty()
    } else {
        match character_of(token) {
            Some(c) => seq![c],
            None => Seq::empty(),
        }
    }
}

/// The text that `s` writes after the beginning `token` of a word: every
/// word that is the number of a character gives that character, and every
/// other word is passed over.
pub open spec fn characters_from(s: Seq<char>, token: Seq<char>) -> Seq<char>
    decreases s.len(),
{
    if s.len() == 0 {
        flushed(token)
    } else if is_blank(s[0]) {
        flushed(token) + characters_from(s.skip(1), Seq::empty())
    } else {
        characters_from(s.skip(1), token.push(s[0]))
    }
}

/// The text that the numbers in `s` write.
pub open spec fn characters(s: Seq<char>) -> Seq<char> {
    characters_from(s, Seq::empty())
}

fn flush(token: &Vec<char>, out: &mut Vec<char>)
    ensures
        final(out)@ == old(out)@ + flushed(token@),
{
    if token.len() == 0 {
        assert(out@ + Seq::<char>::empty() == out@);
        return ;
    }
    let word = string_of(token);
    let found = match parse_unsigned(word.as_str(), 0xFFFF_FFFF) {
        Some(n) => char::from_u32(n as u32),
        None => None,
    };
    match found {
        Some(c) => {
            assert(old(out)@.push(c) == old(out)@ + seq![c]);
            out.push(c);
        },
        None => {
            assert(out@ + Seq::<char>::empty() == out@);
        },
    }
}

/// Reads text from the numbers of its characters.
pub fn unicode_decode(encoded: &str) -> (decoded: String)
    ensures
        decoded@ == characters(encoded@),
{
    let v = chars_of(encoded);
    let mut out: Vec<char> = Vec::new();
    let mut token: Vec<char> = Vec::new();
    let mut i: usize = 0;
    assert(v@.skip(0) == v@);
    assert(out@ + characters(v@) == characters(v@));
    while i < v.len()
        invariant
            i <= v.len(),
            characters(v@) == out@ + characters_from(v@.skip(i as int), token@),
        decreases v.len() - i,
    {
        let ghost rest = v@.skip(i as int);
        let ghost before = out@;
        let c = v[i];
        assert(rest[0] == c);
        assert(rest.skip(1) == v@.skip(i + 1));
        if c == ' ' || c == '\t' || c == '\n' || c == '\x0C' || c == '\r' {
            assert(before + (flushed(token@) + characters_from(rest.skip(1), Seq::empty())) == before
                + flushed(token@) + characters_from(rest.skip(1), Seq::empty()));
            flush(&token, &mut out);
            token = Vec::new();
        } else {
            token.push(c);
        }
        i = i + 1;
    }
    assert(v@.skip(v@.len() as int).len() == 0);
    flush(&token, &mut out);
    string_of(&out)
}

proof fn lemma_words_part(x: Seq<char>, y: Seq<char>, token: Seq<char>)
    ensures
        characters_from(x + seq![' '] + y, token) == characters_from(x, token) + characters_from(y, Seq::empty()),
    decreases x.len(),
{
    let all = x + seq![' '] + y;
    if x.len() == 0 {
        assert(all.skip(1) =~= y);
        assert(all[0] == ' ');
    } else {
        assert(all.skip(1) =~= x.skip(1) + seq![' '] + y);
        assert(all[0] == x[0]);
        if is_blank(x[0]) {
            lemma_words_part(x.skip(1), y, Seq::empty());
            assert(flushed(token) + (characters_from(x.skip(1), Seq::empty()) + characters_from(y, Seq::empty()))
                =~= flushed(token) + characters_from(x.skip(1), Seq::empty()) + characters_from(y, Seq::empty()));
        } else {
            lemma_words_part(x.skip(1), y, token.push(x[0]));
        }
    }
}

proof fn lemma_word_is_flushed(word: Seq<char>, token: Seq<char>)
    requires
        all_digits(word),
    ensures
        characters_from(word, token) == flushed(token + word),
    decreases word.len(),
{
    if word.len() == 0 {
        assert(token + word =~= token);
    } else {
        assert(is_digit(word[0]));
        assert forall|i: int| 0 <= i < word.skip(1).len() implies is_digit(#[trigger] word.skip(1)[i]) by {
            assert(word.skip(1)[i] == word[i + 1]);
        }
        lemma_word_is_flushed(word.skip(1), token.push(word[0]));
        assert(token.push(word[0]) + word.skip(1) =~= token + word);
    }
}

proof fn lemma_number_gives_character(c: char)
    ensures
        characters_from(digits_of(c as u32 as nat), Seq::empty()) == seq![c],
{
    let n = c as u32;
    let word = digits_of(n as nat);
    digits_are_digits(n as nat);
    reading_inverts_writing(n as nat, u32::MAX as nat);
    lemma_word_is_flushed(word, Seq::empty());
    assert(Seq::<char>::empty() + word =~= word);
    vstd::utf8::char_is_scalar(c);
    vstd::utf8::char_u32_cast(c, n);
}

/// Reading undoes writing: the numbers of the characters of `s` are read
/// as `s` again, whatever `s` holds.
pub proof fn characters_invert_code_points(s: Seq<char>)
    ensures
        characters(code_points(s)) == s,
    decreases s.len(),
{
    if s.len() == 0 {
    } else if s.len() == 1 {
        lemma_number_gives_character(s[0]);
        assert(s =~= seq![s[0]]);
    } else {
        let head = s.drop_last();
        characters_invert_code_points(head);
        lemma_number_gives_character(s.last());
        lemma_words_part(code_points(head), digits_of(s.last() as u32 as nat), Seq::empty());
        assert(head + seq![s.last()] =~= s);
    }
}

} // verus!
