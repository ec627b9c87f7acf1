use toolbox::codec::{base64_decode, base64_encode, text_of_outcome, unicode_decode, unicode_encode};
use toolbox::eml::{qp_decode, qp_decode_bytes, qp_encode, utf8_of, LINE_LIMIT};
use toolbox::encoder;
use toolbox::encoder::{decode, encode, Encoder, Encoding};
use toolbox::ui;
use toolbox::ui::{Site, UI};

#[test]
fn qp_encode_leaves_plain_text_alone() {
    assert_eq!(qp_encode(""), "");
    assert_eq!(qp_encode("Hello, World!"), "Hello, World!");
    assert_eq!(qp_encode("tab\there ~"), "tab\there ~");
}

#[test]
fn qp_encode_escapes_what_is_not_plain() {
    assert_eq!(qp_encode("a=b"), "a=3Db");
    assert_eq!(qp_encode("line\nfeed\r"), "line=0Afeed=0D");
    assert_eq!(qp_encode("\u{7f}\u{0}"), "=7F=00");
    assert_eq!(qp_encode("\u{e4}"), "=C3=A4");
    assert_eq!(qp_encode("\u{20ac}"), "=E2=82=AC");
    assert_eq!(qp_encode("\u{1F50B}"), "=F0=9F=94=8B");
    assert_eq!(qp_encode("Gr\u{fc}\u{df}e"), "Gr=C3=BC=C3=9Fe");
}

#[test]
fn qp_encode_breaks_long_lines() {
    assert_eq!(LINE_LIMIT, 75);
    let full = "a".repeat(75);
    assert_eq!(qp_encode(&full), full);
    assert_eq!(qp_encode(&"a".repeat(76)), format!("{}=\n{}", full, "a"));
    assert_eq!(
        qp_encode(&"a".repeat(151)),
        format!("{}=\n{}=\n{}", full, full, "a")
    );
    // an escape is never torn apart
    assert_eq!(qp_encode(&format!("{}=", "a".repeat(72))), format!("{}=3D", "a".repeat(72)));
    assert_eq!(qp_encode(&format!("{}=", "a".repeat(73))), format!("{}=\n=3D", "a".repeat(73)));
    // nor is a character of several bytes
    assert_eq!(
        qp_encode(&format!("{}\u{20ac}", "a".repeat(66))),
        format!("{}=E2=82=AC", "a".repeat(66))
    );
    assert_eq!(
        qp_encode(&format!("{}\u{20ac}b", "a".repeat(67))),
        format!("{}=\n=E2=82=ACb", "a".repeat(67))
    );
    // the count begins again after a break
    assert_eq!(
        qp_encode(&format!("{}{}", "a".repeat(74), "\u{e4}".repeat(13))),
        format!("{}=\n{}=\n{}", "a".repeat(74), "=C3=A4".repeat(12), "=C3=A4")
    );
}

#[test]
fn qp_decode_reads_escapes_and_breaks() {
    assert_eq!(qp_decode(""), "");
    assert_eq!(qp_decode("a=3Db"), "a=b");
    assert_eq!(qp_decode("a=3db"), "a=b");
    assert_eq!(qp_decode("soft=\nbreak"), "softbreak");
    assert_eq!(qp_decode("=C3=A4"), "\u{e4}");
    assert_eq!(qp_decode("=F0=9F=94=8B"), "\u{1F50B}");
    assert_eq!(qp_decode("pl\u{e4}in"), "pl\u{e4}in");
}

#[test]
fn qp_decode_passes_over_what_is_no_escape() {
    assert_eq!(qp_decode("=ZZx"), "x");
    assert_eq!(qp_decode("=4Zx"), "x");
    assert_eq!(qp_decode("a="), "a");
    assert_eq!(qp_decode("=4"), "@");
    assert_eq!(qp_decode("=+Ax"), "\nx");
    assert_eq!(qp_decode("=-1x"), "x");
    assert_eq!(qp_decode("=\r\nx"), "x");
    assert_eq!(qp_decode("==41"), "1");
}

#[test]
fn qp_decode_replaces_what_is_not_utf8() {
    assert_eq!(qp_decode("=FF"), "\u{fffd}");
    assert_eq!(qp_decode("a=C3b"), "a\u{fffd}b");
    assert_eq!(qp_decode_bytes("a=C3b"), vec![0x61, 0xC3, 0x62]);
}

#[test]
fn qp_decode_bytes_gives_the_bytes() {
    assert_eq!(qp_decode_bytes("=00=FF=7f"), vec![0x00, 0xFF, 0x7F]);
    assert_eq!(qp_decode_bytes("\u{20ac}"), vec![0xE2, 0x82, 0xAC]);
    assert_eq!(qp_decode_bytes("=\n"), Vec::<u8>::new());
}

#[test]
fn utf8_of_a_character() {
    assert_eq!(utf8_of('a'), vec![0x61]);
    assert_eq!(utf8_of('\u{e4}'), vec![0xC3, 0xA4]);
    assert_eq!(utf8_of('\u{20ac}'), vec![0xE2, 0x82, 0xAC]);
    assert_eq!(utf8_of('\u{1F50B}'), vec![0xF0, 0x9F, 0x94, 0x8B]);
}

#[test]
fn qp_decode_inverts_qp_encode() {
    let long = "=\u{e4}= ".repeat(40);
    let texts = [
        "",
        "plain",
        "a=b",
        "=\n",
        "tr\u{e4}ger \u{1F50B} 100%\r\n",
        "\u{0}\u{1}\u{7f}\u{80}\u{7ff}\u{800}\u{ffff}\u{10000}\u{10ffff}",
        long.as_str(),
    ];
    for text in texts {
        assert_eq!(qp_decode(&qp_encode(text)), text);
    }
}

#[test]
fn base64_encode_writes_the_standard_alphabet_with_padding() {
    assert_eq!(base64_encode(""), "");
    assert_eq!(base64_encode("hello world~"), "aGVsbG8gd29ybGR+");
    assert_eq!(base64_encode("a"), "YQ==");
    assert_eq!(base64_encode("ab"), "YWI=");
    assert_eq!(base64_encode("\u{e4}\u{f6}\u{fc}?"), "w6TDtsO8Pw==");
}

#[test]
fn base64_decode_reads_it_back() {
    assert_eq!(base64_decode(""), "");
    assert_eq!(base64_decode("aGVsbG8gd29ybGR+"), "hello world~");
    assert_eq!(base64_decode("YQ=="), "a");
    assert_eq!(base64_decode("w6TDtsO8Pw=="), "\u{e4}\u{f6}\u{fc}?");
    assert_eq!(base64_decode("/w=="), "\u{fffd}");
}

#[test]
fn base64_decode_gives_the_message_of_an_error() {
    assert_eq!(base64_decode("!!!!"), "Invalid symbol 33, offset 0.");
    assert_eq!(base64_decode("YQ"), "Invalid padding");
    assert_eq!(base64_decode("YQ==YQ=="), "Invalid symbol 61, offset 2.");
}

#[test]
fn the_text_of_an_outcome() {
    assert_eq!(text_of_outcome(Ok(vec![0x68, 0x69])), "hi");
    assert_eq!(text_of_outcome(Ok(vec![0x68, 0xFF])), "h\u{fffd}");
    assert_eq!(text_of_outcome(Err("Invalid padding".to_string())), "Invalid padding");
}

#[test]
fn unicode_encode_writes_the_numbers() {
    assert_eq!(unicode_encode(""), "");
    assert_eq!(unicode_encode("A"), "65");
    assert_eq!(unicode_encode("Hi!"), "72 105 33");
    assert_eq!(unicode_encode("\u{0}\u{20ac}\u{10ffff}"), "0 8364 1114111");
}

#[test]
fn unicode_decode_reads_the_numbers() {
    assert_eq!(unicode_decode(""), "");
    assert_eq!(unicode_decode("72 105 33"), "Hi!");
    assert_eq!(unicode_decode("  72\t105\n33\r\n"), "Hi!");
    assert_eq!(unicode_decode("72\u{c}105"), "Hi");
    assert_eq!(unicode_decode("+65 0066 8364"), "AB\u{20ac}");
}

#[test]
fn unicode_decode_passes_over_what_is_no_character() {
    assert_eq!(unicode_decode("72 x 105"), "Hi");
    assert_eq!(unicode_decode("55296 57343 65"), "A");
    assert_eq!(unicode_decode("55295 57344"), "\u{d7ff}\u{e000}");
    assert_eq!(unicode_decode("1114111 1114112"), "\u{10ffff}");
    assert_eq!(unicode_decode("4294967295 4294967296 99999999999999999999"), "");
    assert_eq!(unicode_decode("-65 6 5 65,66 0x41 +"), "\u{6}\u{5}");
    assert_eq!(unicode_decode("65\u{a0}66"), "");
    assert_eq!(unicode_decode("65\u{b}66"), "");
}

#[test]
fn unicode_decode_inverts_unicode_encode() {
    for text in ["", "a", "Hi!", "tr\u{e4}ger \u{1F50B}\n\t 100%", "\u{0}\u{d7ff}\u{e000}\u{10ffff}"] {
        assert_eq!(unicode_decode(&unicode_encode(text)), text);
    }
}

#[test]
fn encode_and_decode_by_encoding() {
    assert_eq!(encode(Encoding::Plain, "a=\u{e4}"), "a=\u{e4}");
    assert_eq!(encode(Encoding::QuotedPrintable, "a=\u{e4}"), "a=3D=C3=A4");
    assert_eq!(encode(Encoding::Base64, "a=\u{e4}"), "YT3DpA==");
    assert_eq!(encode(Encoding::Unicode, "a=\u{e4}"), "97 61 228");
    assert_eq!(decode(Encoding::Plain, "a=3D"), "a=3D");
    assert_eq!(decode(Encoding::QuotedPrintable, "a=3D=C3=A4"), "a=\u{e4}");
    assert_eq!(decode(Encoding::Base64, "YT3DpA=="), "a=\u{e4}");
    assert_eq!(decode(Encoding::Unicode, "97 61 228"), "a=\u{e4}");
}

#[test]
fn the_page_encodes_one_field_into_the_other() {
    let mut page = Encoder::new(Encoding::QuotedPrintable);
    assert_eq!(page.encoded(), "");
    assert_eq!(page.decoded(), "");
    assert_eq!(page.encoding(), Encoding::QuotedPrintable);
    page.update(encoder::Message::DecodedChanged("1=1".to_string()));
    assert_eq!(page.encoded(), "");
    page.update(encoder::Message::Encode);
    assert_eq!(page.encoded(), "1=3D1");
    assert_eq!(page.decoded(), "1=1");
    page.update(encoder::Message::EncodedChanged("2=3D2".to_string()));
    assert_eq!(page.decoded(), "1=1");
    page.update(encoder::Message::Decode);
    assert_eq!(page.decoded(), "2=2");
    page.set_encoding(Encoding::Unicode);
    assert_eq!(page.encoded(), "2=3D2");
    assert_eq!(page.decoded(), "2=2");
    page.update(encoder::Message::Encode);
    assert_eq!(page.encoded(), "50 61 50");
}

#[test]
fn the_toolbox_opens_at_home() {
    let toolbox = UI::boot();
    assert_eq!(toolbox.site(), Site::Home);
    assert_eq!(toolbox.encoder().encoding(), Encoding::Plain);
    assert_eq!(toolbox.encoder().encoded(), "");
    assert_eq!(toolbox.encoder().decoded(), "");
}

#[test]
fn the_toolbox_switches_pages_and_codecs() {
    let mut toolbox = UI::boot();
    toolbox.update(ui::Message::Encoder(encoder::Message::DecodedChanged("hi".to_string())));
    toolbox.update(ui::Message::Encoder(encoder::Message::Encode));
    assert_eq!(toolbox.encoder().encoded(), "hi");

    toolbox.update(ui::Message::SwitchToBase64);
    assert_eq!(toolbox.site(), Site::Base64);
    assert_eq!(toolbox.encoder().encoding(), Encoding::Base64);
    assert_eq!(toolbox.encoder().decoded(), "hi");
    toolbox.update(ui::Message::Encoder(encoder::Message::Encode));
    assert_eq!(toolbox.encoder().encoded(), "aGk=");

    toolbox.update(ui::Message::SwitchToEml);
    assert_eq!(toolbox.site(), Site::Eml);
    assert_eq!(toolbox.encoder().encoding(), Encoding::QuotedPrintable);
    toolbox.update(ui::Message::Encoder(encoder::Message::EncodedChanged("=48=49".to_string())));
    toolbox.update(ui::Message::Encoder(encoder::Message::Decode));
    assert_eq!(toolbox.encoder().decoded(), "HI");

    toolbox.update(ui::Message::SwitchToUnicode);
    assert_eq!(toolbox.site(), Site::Unicode);
    assert_eq!(toolbox.encoder().encoding(), Encoding::Unicode);
    toolbox.update(ui::Message::Encoder(encoder::Message::Encode));
    assert_eq!(toolbox.encoder().encoded(), "72 73");
}
