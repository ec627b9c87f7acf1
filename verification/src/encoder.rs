//! The two text fields of a codec page: what is written in one can be
//! encoded into the other, and back.

use vstd::prelude::*;
use vstd::utf8::encode_utf8;
use crate::codec::{
    base64_decode, base64_encode, base64_standard, base64_standard_decoding, characters, code_points,
    shown_text, unicode_decode, unicode_encode,
};
use crate::eml::{decoded_bytes, qp_decode, qp_encode, qp_encoded, utf8_lossy};

verus! {

/// The codec of a page.
#[derive(Debug, Clone, Copy, PartialEq, Eq, Structural)]
pub enum Encoding {
    /// Text stands for itself.
    Plain,
    /// Quoted-printable, as in mail files.
    QuotedPrintable,
    /// Base64.
    Base64,
    /// The numbers of the characters.
    Unicode,
}

/// What `encoding` makes of the plain text `text`.
pub open spec fn encoding_of(encoding: Encoding, text: Seq<char>) -> Seq<char> {
    match encoding {
        Encoding::Plain => text,
        Encoding::QuotedPrintable => qp_encoded(text),
        Encoding::Base64 => base64_standard(encode_utf8(text)),
        Encoding::Unicode => code_points(text),
    }
}

/// The plain text that `encoding` reads from `text`.
pub open spec fn decoding_of(encoding: Encoding, text: Seq<char>) -> Seq<char> {
    match encoding {
        Encoding::Plain => text,
        Encoding::QuotedPrintable => utf8_lossy(decoded_bytes(text)),
        Encoding::Base64 => shown_text(base64_standard_decoding(encode_utf8(text))),
        Encoding::Unicode => characters(text),
    }
}

/// Whether `encoding` can write `text` on this machine: Base64 text must
/// not be longer than the machine can count.
pub open spec fn can_encode(encoding: Encoding, text: Seq<char>) -> bool {
    encoding is Base64 ==> encode_utf8(text).len() / 3 * 4 + 4 <= usize::MAX
}

/// What happens on a codec page.
#[derive(Debug, Clone)]
pub enum Message {
    /// The encoded field was edited. Carries its new text.
    EncodedChanged(String),
    /// The plain field was edited. Carries its new text.
    DecodedChanged(String),
    /// The plain field is to be encoded.
    Encode,
    /// The encoded field is to be decoded.
    Decode,
}

/// A codec page, as plain values.
pub struct EncoderView {
    pub encoded: Seq<char>,
    pub decoded: Seq<char>,
    pub encoding: Encoding,
}

/// A codec page.
#[derive(Debug)]
pub struct Encoder {
    encoded: String,
    decoded: String,
    encoding: Encoding,
}

impl View for Encoder {
    type V = EncoderView;

    closed spec fn view(&self) -> EncoderView {
        EncoderView { encoded: self.encoded@, decoded: self.decoded@, encoding: self.encoding }
    }
}

/// The page after a message.
pub open spec fn after(e: EncoderView, message: Message) -> EncoderView {
    match message {
        Message::EncodedChanged(text) => EncoderView { encoded: text@, ..e },
        Message::DecodedChanged(text) => EncoderView { decoded: text@, ..e },
        Message::Encode => EncoderView { encoded: encoding_of(e.encoding, e.decoded), ..e },
        Message::Decode => EncoderView { decoded: decoding_of(e.encoding, e.encoded), ..e },
    }
}

/// Writes `text` in `encoding`.
pub fn encode(encoding: Encoding, text: &str) -> (encoded: String)
    requires
        can_encode(encoding, text@),
    ensures
        encoded@ == encoding_of(encoding, text@),
{
    match encoding {
        Encoding::Plain => text.to_owned(),
        Encoding::QuotedPrintable => qp_encode(text),
        Encoding::Base64 => base64_encode(text),
        Encoding::Unicode => unicode_encode(text),
    }
}

/// Reads `text` in `encoding`.
pub fn decode(encoding: Encoding, text: &str) -> (decoded: String)
    ensures
        decoded@ == decoding_of(encoding, text@),
{
    match encoding {
        Encoding::Plain => text.to_owned(),
        Encoding::QuotedPrintable => qp_decode(text),
        Encoding::Base64 => base64_decode(text),
        Encoding::Unicode => unicode_decode(text),
    }
}

impl Encoder {
    /// A page with two empty fields.
    pub fn new(encoding: Encoding) -> (page: Encoder)
        ensures
            page@ == (EncoderView { encoded: Seq::empty(), decoded: Seq::empty(), encoding }),
    {
        Encoder { encoded: String::new(), decoded: String::new(), encoding }
    }

    /// The text of the encoded field.
    pub fn encoded(&self) -> (text: &String)
        ensures
            text@ == self@.encoded,
    {
        &self.encoded
    }

    /// The text of the plain field.
    pub fn decoded(&self) -> (text: &String)
        ensures
            text@ == self@.decoded,
    {
        &self.decoded
    }

    /// The codec of the page.
    pub fn encoding(&self) -> (encoding: Encoding)
        ensures
            encoding == self@.encoding,
    {
        self.encoding
    }

    /// Takes a message.
    pub fn update(&mut self, message: Message)
        requires
            message is Encode ==> can_encode(old(self)@.encoding, old(self)@.decoded),
        ensures
            final(self)@ == after(old(self)@, message),
    {
        match message {
            Message::EncodedChanged(text) => {
                self.encoded = text;
            },
            Message::DecodedChanged(text) => {
                self.decoded = text;
            },
            Message::Encode => {
                self.encoded = encode(self.encoding, self.decoded.as_str());
            },
            Message::Decode => {
                self.decoded = decode(self.encoding, self.encoded.as_str());
            },
        }
    }

    /// Gives the page another codec. The fields stay as they are.
    pub fn set_encoding(&mut self, encoding: Encoding)
        ensures
            final(self)@ == (EncoderView { encoding, ..old(self)@ }),
    {
        self.encoding = encoding;
    }
}

} // verus!
