//! Quoted-printable text, as it stands in mail files.
//!
//! Printable characters of ASCII, the space and the tab stand for
//! themselves. Every other character, and the `=`, is written byte by byte
//! of its UTF-8 form as `=` and two hexadecimal digits. No line is longer
//! than 75 characters: where the next character would not fit, the line is
//! broken by `=` and a line feed.

use vstd::prelude::*;
use vstd::utf8::{decode_utf8, encode_utf8, valid_utf8};
use crate::number::digit_char;
use crate::text::{chars_of, string_of};

verus! {

/// The longest line that the encoder writes, the `=` of a break not
/// counted.
pub const LINE_LIMIT: usize = 75;

/// Whether `c` stands for itself in quoted-printable text.
pub open spec fn reads_plain(c: char) -> bool {
    let n = c as u32;
    n != 61 && (33 <= n <= 126 || n == 32 || n == 9)
}

/// The hexadecimal digit of `n`, in upper case.
pub open spec fn hex_char(n: nat) -> char {
    if n < 10 {
        digit_char(n)
    } else if n == 10 {
        'A'
    } else if n == 11 {
        'B'
    } else if n == 12 {
        'C'
    } else if n == 13 {
        'D'
    } else if n == 14 {
        'E'
    } else {
        'F'
    }
}

/// The three characters that stand for the byte `b`.
pub open spec fn escape_of(b: u8) -> Seq<char> {
    seq!['=', hex_char((b / 16) as nat), hex_char((b % 16) as nat)]
}

/// The characters that stand for `bytes`, byte by byte.
pub open spec fn escapes_of(bytes: Seq<u8>) -> Seq<char>
    decreases bytes.len(),
{
    if bytes.len() == 0 {
        Seq::empty()
    } else {
        escape_of(bytes[0]) + escapes_of(bytes.skip(1))
    }
}

/// What is written for the character `c`.
pub open spec fn unit_of(c: char) -> Seq<char> {
    if reads_plain(c) {
        seq![c]
    } else {
        escapes_of(encode_utf8(seq![c]))
    }
}

/// The encoding of `s` on a line that holds `column` characters already.
pub open spec fn encoded_from(s: Seq<char>, column: nat) -> Seq<char>
    decreases s.len(),
{
    if s.len() == 0 {
        Seq::empty()
    } else {
        let unit = unit_of(s[0]);
        if column + unit.len() > LINE_LIMIT {
            seq!['=', '\n'] + unit + encoded_from(s.skip(1), unit.len())
        } else {
            unit + encoded_from(s.skip(1), column + unit.len())
        }
    }
}

/// The quoted-printable encoding of `s`.
pub open spec fn qp_encoded(s: Seq<char>) -> Seq<char> {
    encoded_from(s, 0)
}

/// The value of the hexadecimal digit `c`, in either case.
pub open spec fn hex_value(c: char) -> Option<nat> {
    let n = c as u32;
    if 48 <= n <= 57 {
        Some((n - 48) as nat)
    } else if 65 <= n <= 70 {
        Some((n - 55) as nat)
    } else if 97 <= n <= 102 {
        Some((n - 87) as nat)
    } else {
        None
    }
}

/// The byte that the two characters after a `=` write: two hexadecimal
/// digits, or a `+` and one.
pub open spec fn byte_of(first: char, second: char) -> Option<u8> {
    match (hex_value(first), hex_value(second)) {
        (Some(high), Some(low)) => Some((16 * high + low) as u8),
        (None, Some(low)) if first == '+' => Some(low as u8),
        _ => None,
    }
}

/// The bytes of an optional byte.
pub open spec fn byte_or_nothing(b: Option<u8>) -> Seq<u8> {
    match b {
        Some(b) => seq![b],
        None => Seq::empty(),
    }
}

/// The bytes that quoted-printable text stands for. A `=` before a line
/// feed is a break and stands for nothing. Any other `=` takes the two
/// characters after it, a missing second one read as `0`; where they write
/// no byte, all three stand for nothing. Every other character stands for
/// its UTF-8 form.
pub open spec fn decoded_bytes(s: Seq<char>) -> Seq<u8>
    decreases s.len(),
{
    if s.len() == 0 {
        Seq::empty()
    } else if s[0] != '=' {
        encode_utf8(seq![s[0]]) + decoded_bytes(s.skip(1))
    } else if s.len() == 1 {
        Seq::empty()
    } else if s[1] == '\n' {
        decoded_bytes(s.skip(2))
    } else if s.len() == 2 {
        byte_or_nothing(byte_of(s[1], '0'))
    } else {
        byte_or_nothing(byte_of(s[1], s[2])) + decoded_bytes(s.skip(3))
    }
}

/// The text that `String::from_utf8_lossy` makes of `bytes`.
pub uninterp spec fn utf8_lossy(bytes: Seq<u8>) -> Seq<char>;

/// `String::from_utf8_lossy`, made into a `String`: the text of `bytes`, in
/// which every stretch that is not UTF-8 is replaced by U+FFFD. Bytes that
/// are UTF-8 throughout give the text that they encode.
#[verifier::external_body]
pub(crate) fn text_from_bytes(bytes: &Vec<u8>) -> (text: String)
    ensures
        text@ == utf8_lossy(bytes@),
        valid_utf8(bytes@) ==> text@ == decode_utf8(bytes@),
{
    String::from_utf8_lossy(bytes).to_string()
}

proof fn lemma_escapes_len(bytes: Seq<u8>)
    ensures
        escapes_of(bytes).len() == 3 * bytes.len(),
    decreases bytes.len(),
{
    if bytes.len() > 0 {
        lemma_escapes_len(bytes.skip(1));
    }
}

proof fn lemma_unit_len(c: char)
    ensures
        1 <= unit_of(c).len() <= 12,
{
    let bytes = encode_utf8(seq![c]);
    assert(seq![c].drop_first() =~= Seq::<char>::empty());
    assert(encode_utf8(Seq::<char>::empty()) =~= Seq::<u8>::empty());
    assert(1 <= bytes.len() <= 4);
    lemma_escapes_len(bytes);
}

fn hex_digit(n: u8) -> (c: char)
    requires
        n < 16,
    ensures
        c == hex_char(n as nat),
{
    if n == 0 {
        '0'
    } else if n == 1 {
        '1'
    } else if n == 2 {
        '2'
    } else if n == 3 {
        '3'
    } else if n == 4 {
        '4'
    } else if n == 5 {
        '5'
    } else if n == 6 {
        '6'
    } else if n == 7 {
        '7'
    } else if n == 8 {
        '8'
    } else if n == 9 {
        '9'
    } else if n == 10 {
        'A'
    } else if n == 11 {
        'B'
    } else if n == 12 {
        'C'
    } else if n == 13 {
        'D'
    } else if n == 14 {
        'E'
    } else {
        'F'
    }
}

/// The UTF-8 form of one character.
pub fn utf8_of(c: char) -> (bytes: Vec<u8>)
    ensures
        bytes@ == encode_utf8(seq![c]),
{
    let mut s = String::new();
    s.push(c);
    assert(s@ =~= seq![c]);
    s.as_str().as_bytes_vec()
}

fn unit(c: char) -> (out: Vec<char>)
    ensures
        out@ == unit_of(c),
        1 <= out@.len() <= 12,
{
    proof {
        lemma_unit_len(c);
    }
    let n: u32 = c as u32;
    let mut out: Vec<char> = Vec::new();
    if n != 61 && ((33 <= n && n <= 126) || n == 32 || n == 9) {
        out.push(c);
        return out;
    }
    let bytes = utf8_of(c);
    let mut i: usize = 0;
    assert(bytes@.skip(0) == bytes@);
    while i < bytes.len()
        invariant
            i <= bytes.len(),
            escapes_of(bytes@) == out@ + escapes_of(bytes@.skip(i as int)),
        decreases bytes.len() - i,
    {
        let b = bytes[i];
        let ghost rest = bytes@.skip(i as int);
        assert(rest.skip(1) == bytes@.skip(i + 1));
        assert(out@ + (escape_of(b) + escapes_of(rest.skip(1))) == out@.push('=').push(
            hex_char((b / 16) as nat),
        ).push(hex_char((b % 16) as nat)) + escapes_of(rest.skip(1)));
        out.push('=');
        out.push(hex_digit(b / 16));
        out.push(hex_digit(b % 16));
        i = i + 1;
    }
    assert(escapes_of(bytes@.skip(bytes@.len() as int)) =~= Seq::<char>::empty());
    assert(out@ + Seq::<char>::empty() == out@);
    out
}

/// Writes text as quoted-printable.
pub fn qp_encode(decoded: &str) -> (encoded: String)
    ensures
        encoded@ == qp_encoded(decoded@),
{
    let v = chars_of(decoded);
    let mut out: Vec<char> = Vec::new();
    let mut counter: usize = 0;
    let mut i: usize = 0;
    assert(v@.skip(0) == v@);
    assert(out@ + encoded_from(v@, 0) == encoded_from(v@, 0));
    while i < v.len()
        invariant
            i <= v.len(),
            counter <= LINE_LIMIT,
            qp_encoded(v@) == out@ + encoded_from(v@.skip(i as int), counter as nat),
        decreases v.len() - i,
    {
        let ghost rest = v@.skip(i as int);
        let ghost before = out@;
        assert(rest.skip(1) == v@.skip(i + 1));
        let mut piece = unit(v[i]);
        let ghost written = piece@;
        if piece.len() > LINE_LIMIT - counter {
            out.push('=');
            out.push('\n');
            assert(before + (seq!['=', '\n'] + written + encoded_from(rest.skip(1), written.len()))
                == before.push('=').push('\n') + written + encoded_from(rest.skip(1), written.len()));
            counter = 0;
        } else {
            assert(before + (written + encoded_from(rest.skip(1), (counter + written.len()) as nat))
                == before + written + encoded_from(rest.skip(1), (counter + written.len()) as nat));
        }
        counter = counter + piece.len();
        out.append(&mut piece);
        i = i + 1;
    }
    assert(encoded_from(v@.skip(v@.len() as int), counter as nat) =~= Seq::<char>::empty());
    assert(out@ + Seq::<char>::empty() == out@);
    string_of(&out)
}

fn hex_of(c: char) -> (value: Option<u8>)
    ensures
        match value {
            Some(n) => hex_value(c) == Some(n as nat),
            None => hex_value(c) is None,
        },
{
    let n: u32 = c as u32;
    if 48 <= n && n <= 57 {
        Some((n - 48) as u8)
    } else if 65 <= n && n <= 70 {
        Some((n - 55) as u8)
    } else if 97 <= n && n <= 102 {
        Some((n - 87) as u8)
    } else {
        None
    }
}

fn byte_from(first: char, second: char) -> (byte: Option<u8>)
    ensures
        byte == byte_of(first, second),
{
    match (hex_of(first), hex_of(second)) {
        (Some(high), Some(low)) => Some(16 * high + low),
        (None, Some(low)) => if first == '+' {
            Some(low)
        } else {
            None
        },
        _ => None,
    }
}

/// The bytes that quoted-printable text stands for.
pub fn qp_decode_bytes(encoded: &str) -> (bytes: Vec<u8>)
    ensures
        bytes@ == decoded_bytes(encoded@),
{
    let v = chars_of(encoded);
    let mut out: Vec<u8> = Vec::new();
    let mut i: usize = 0;
    assert(v@.skip(0) == v@);
    assert(out@ + decoded_bytes(v@) == decoded_bytes(v@));
    while i < v.len()
        invariant
            i <= v.len(),
            decoded_bytes(v@) == out@ + decoded_bytes(v@.skip(i as int)),
        decreases v.len() - i,
    {
        let ghost rest = v@.skip(i as int);
        let ghost before = out@;
        let c = v[i];
        assert(rest[0] == c);
        if c != '=' {
            let mut bytes = utf8_of(c);
            assert(rest.skip(1) == v@.skip(i + 1));
            assert(before + (bytes@ + decoded_bytes(rest.skip(1))) == before + bytes@ + decoded_bytes(
                rest.skip(1),
            ));
            out.append(&mut bytes);
            i = i + 1;
        } else if i + 1 == v.len() {
            assert(rest.len() == 1);
            assert(before + Seq::<u8>::empty() == before);
            assert(v@.skip(i + 1).len() == 0);
            i = i + 1;
        } else if v[i + 1] == '\n' {
            assert(rest[1] == '\n');
            assert(rest.skip(2) == v@.skip(i + 2));
            i = i + 2;
        } else {
            assert(rest[1] == v@[i + 1]);
            let second = if i + 2 < v.len() { v[i + 2] } else { '0' };
            let byte = byte_from(v[i + 1], second);
            let ghost tail = if i + 2 < v.len() { decoded_bytes(rest.skip(3)) } else { Seq::<u8>::empty() };
            proof {
                if i + 2 < v.len() {
                    assert(rest[2] == v@[i + 2]);
                    assert(rest.skip(3) == v@.skip(i + 3));
                } else {
                    assert(rest.len() == 2);
                    assert(v@.skip(i + 2).len() == 0);
                }
                assert(decoded_bytes(rest) =~= byte_or_nothing(byte) + tail);
                assert(before + (byte_or_nothing(byte) + tail) == before + byte_or_nothing(byte) + tail);
            }
            match byte {
                Some(b) => {
                    out.push(b);
                    assert(out@ == before + byte_or_nothing(byte));
                },
                None => {
                    assert(out@ == before + byte_or_nothing(byte));
                },
            }
            i = if i + 2 < v.len() { i + 3 } else { i + 2 };
        }
    }
    assert(decoded_bytes(v@.skip(v@.len() as int)) =~= Seq::<u8>::empty());
    assert(out@ + Seq::<u8>::empty() == out@);
    out
}

/// Reads quoted-printable text. The bytes that it stands for are taken as
/// UTF-8; what is not UTF-8 among them is replaced.
pub fn qp_decode(encoded: &str) -> (decoded: String)
    ensures
        decoded@ == utf8_lossy(decoded_bytes(encoded@)),
        valid_utf8(decoded_bytes(encoded@)) ==> decoded@ == decode_utf8(decoded_bytes(encoded@)),
{
    let bytes = qp_decode_bytes(encoded);
    text_from_bytes(&bytes)
}

proof fn lemma_escape_is_read(b: u8)
    ensures
        byte_of(hex_char((b / 16) as nat), hex_char((b % 16) as nat)) == Some(b),
        hex_char((b / 16) as nat) != '\n',
{
    assert(forall|n: nat| n < 16 ==> hex_value(#[trigger] hex_char(n)) == Some(n));
}

proof fn lemma_escapes_are_read(bytes: Seq<u8>, tail: Seq<char>)
    ensures
        decoded_bytes(escapes_of(bytes) + tail) == bytes + decoded_bytes(tail),
    decreases bytes.len(),
{
    if bytes.len() == 0 {
        assert(escapes_of(bytes) + tail =~= tail);
        assert(bytes + decoded_bytes(tail) =~= decoded_bytes(tail));
    } else {
        let b = bytes[0];
        let all = escapes_of(bytes) + tail;
        let rest = escapes_of(bytes.skip(1)) + tail;
        lemma_escape_is_read(b);
        lemma_escapes_are_read(bytes.skip(1), tail);
        assert(all =~= escape_of(b) + rest);
        assert(all.skip(3) =~= rest);
        assert(all[0] == '=' && all[1] == hex_char((b / 16) as nat) && all[2] == hex_char((b % 16) as nat));
        assert(decoded_bytes(all) == seq![b] + decoded_bytes(rest));
        assert(seq![b] + (bytes.skip(1) + decoded_bytes(tail)) =~= bytes + decoded_bytes(tail));
    }
}

proof fn lemma_unit_is_read(c: char, tail: Seq<char>)
    ensures
        decoded_bytes(unit_of(c) + tail) == encode_utf8(seq![c]) + decoded_bytes(tail),
{
    if reads_plain(c) {
        let all = seq![c] + tail;
        assert(all.skip(1) =~= tail);
        assert(all[0] == c);
    } else {
        lemma_escapes_are_read(encode_utf8(seq![c]), tail);
    }
}

proof fn lemma_encoding_is_read(s: Seq<char>, column: nat)
    ensures
        decoded_bytes(encoded_from(s, column)) == encode_utf8(s),
    decreases s.len(),
{
    if s.len() == 0 {
    } else {
        let c = s[0];
        let unit = unit_of(c);
        let t = s.skip(1);
        assert(s.drop_first() == t);
        assert(seq![c].drop_first() =~= Seq::<char>::empty());
        assert(encode_utf8(Seq::<char>::empty()) =~= Seq::<u8>::empty());
        assert(seq![c][0] == c);
        assert(encode_utf8(seq![c]) =~= vstd::utf8::encode_scalar(c as u32) + encode_utf8(
            seq![c].drop_first(),
        ));
        assert(encode_utf8(s) == encode_utf8(seq![c]) + encode_utf8(t));
        if column + unit.len() > LINE_LIMIT {
            let tail = encoded_from(t, unit.len());
            lemma_encoding_is_read(t, unit.len());
            lemma_unit_is_read(c, tail);
            let broken = seq!['=', '\n'] + unit + tail;
            assert(broken.skip(2) =~= unit + tail);
            assert(broken[0] == '=' && broken[1] == '\n');
        } else {
            let tail = encoded_from(t, column + unit.len());
            lemma_encoding_is_read(t, column + unit.len());
            lemma_unit_is_read(c, tail);
        }
    }
}

/// Decoding undoes encoding: the bytes that the encoding of `s` stands for
/// are the UTF-8 form of `s`, so that they are read as `s` again.
pub proof fn decoding_inverts_encoding(s: Seq<char>)
    ensures
        decoded_bytes(qp_encoded(s)) == encode_utf8(s),
        valid_utf8(decoded_bytes(qp_encoded(s))),
        decode_utf8(decoded_bytes(qp_encoded(s))) == s,
{
    lemma_encoding_is_read(s, 0);
    vstd::utf8::encode_utf8_valid_utf8(s);
    vstd::utf8::encode_utf8_decode_utf8(s);
}

} // verus!
