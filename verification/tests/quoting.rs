use toolbox::quoting::{quote, strip_quotes};

#[test]
fn strip_quotes_takes_the_outer_quotes_off() {
    assert_eq!(strip_quotes("\"Desc 1\""), "Desc 1");
    assert_eq!(strip_quotes("\"\""), "");
}

#[test]
fn strip_quotes_leaves_an_unquoted_field_alone() {
    assert_eq!(strip_quotes("OL"), "OL");
    assert_eq!(strip_quotes(""), "");
    assert_eq!(strip_quotes("\""), "\"");
    assert_eq!(strip_quotes("\"open"), "\"open");
    assert_eq!(strip_quotes("close\""), "close\"");
    assert_eq!(strip_quotes("a\\\\b"), "a\\\\b");
}

#[test]
fn strip_quotes_unescapes_quotes_and_backslashes() {
    assert_eq!(strip_quotes("\"say \\\"hi\\\"\""), "say \"hi\"");
    assert_eq!(strip_quotes("\"C:\\\\temp\""), "C:\\temp");
    assert_eq!(strip_quotes("\"\\\\\\\"\""), "\\\"");
}

#[test]
fn strip_quotes_unescapes_quotes_before_backslashes() {
    // inner text: backslash, backslash, quote. The quote goes first, which
    // leaves backslash and quote; no pair of backslashes is left then.
    assert_eq!(strip_quotes("\"\\\\\"\""), "\\\"");
}

#[test]
fn quote_escapes_quotes_and_backslashes() {
    assert_eq!(quote("Desc 1"), "\"Desc 1\"");
    assert_eq!(quote(""), "\"\"");
    assert_eq!(quote("say \"hi\""), "\"say \\\"hi\\\"\"");
    assert_eq!(quote("C:\\temp"), "\"C:\\\\temp\"");
}

#[test]
fn unquoting_inverts_quoting() {
    let values = [
        "",
        "plain",
        "\"",
        "\\",
        "\\\"",
        "\"\\",
        "\\\\",
        "\\\\\\",
        "a\\\"b\\\\c\"\"d",
        "\"quoted\"",
        "tr\u{e4}ger \\ \u{1F50B} \"100\"",
    ];
    for value in values {
        assert_eq!(strip_quotes(&quote(value)), value);
    }
}
