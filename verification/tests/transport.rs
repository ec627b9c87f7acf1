use toolbox::error::{Expected, NutError};
use toolbox::response::{parse_device_line, parse_variable_line};
use toolbox::transport::{address, expect_ok, read_line, send_command};

#[test]
fn send_command_ends_the_line() {
    assert_eq!(send_command("LIST UPS"), "LIST UPS\n");
    assert_eq!(send_command(""), "\n");
}

#[test]
fn read_line_strips_the_line_end() {
    assert_eq!(read_line("OK\n"), Ok("OK".to_string()));
    assert_eq!(read_line("OK\r\n"), Ok("OK".to_string()));
    assert_eq!(read_line("OK\n\r\r\n"), Ok("OK".to_string()));
    assert_eq!(read_line("OK"), Ok("OK".to_string()));
    assert_eq!(read_line("a\rb\n"), Ok("a\rb".to_string()));
    assert_eq!(read_line("\n"), Ok(String::new()));
}

#[test]
fn read_line_of_nothing_is_a_closed_connection() {
    assert_eq!(read_line(""), Err(NutError::ConnectionClosed));
}

#[test]
fn expect_ok_wants_the_prefix() {
    assert_eq!(expect_ok("OK"), Ok(()));
    assert_eq!(expect_ok("OK Goodbye"), Ok(()));
    assert_eq!(expect_ok("OKAY"), Ok(()));
    assert_eq!(expect_ok("O"), Err(NutError::ProtocolViolation(Expected::Acknowledgement, "O".to_string())));
    assert_eq!(expect_ok(" OK"), Err(NutError::ProtocolViolation(Expected::Acknowledgement, " OK".to_string())));
    assert_eq!(expect_ok("ok"), Err(NutError::ProtocolViolation(Expected::Acknowledgement, "ok".to_string())));
    assert_eq!(
        expect_ok("ERR ACCESS-DENIED"),
        Err(NutError::ProtocolViolation(Expected::Acknowledgement, "ERR ACCESS-DENIED".to_string()))
    );
}

#[test]
fn device_lines() {
    assert_eq!(
        parse_device_line("UPS ups1 \"Desc 1\""),
        Ok(Some(("ups1".to_string(), "Desc 1".to_string())))
    );
    assert_eq!(
        parse_device_line("UPS ups1 Desc 1"),
        Ok(Some(("ups1".to_string(), "Desc 1".to_string())))
    );
    assert_eq!(parse_device_line("UPS  \"x\""), Ok(Some((String::new(), "x".to_string()))));
    assert_eq!(parse_device_line("UPS a "), Ok(Some(("a".to_string(), String::new()))));
    assert_eq!(parse_device_line("UPS"), Ok(None));
    assert_eq!(parse_device_line("UPSX a b"), Ok(None));
    assert_eq!(parse_device_line("END LIST UPS"), Ok(None));
    assert_eq!(parse_device_line(""), Ok(None));
    assert_eq!(
        parse_device_line("UPS ups1"),
        Err(NutError::ProtocolViolation(Expected::Description, "UPS ups1".to_string()))
    );
    assert_eq!(parse_device_line("UPS "), Err(NutError::ProtocolViolation(Expected::Description, "UPS ".to_string())));
}

#[test]
fn variable_lines() {
    assert_eq!(
        parse_variable_line("VAR ups1 ups.status \"OL\"", "ups1"),
        Ok(Some(("ups.status".to_string(), "OL".to_string())))
    );
    assert_eq!(
        parse_variable_line("VAR ups1 ups.model \"Back-UPS \\\"Pro\\\" 900\"", "ups1"),
        Ok(Some(("ups.model".to_string(), "Back-UPS \"Pro\" 900".to_string())))
    );
    assert_eq!(parse_variable_line("VAR other.dev x \"1\"", "ups1"), Ok(None));
    assert_eq!(parse_variable_line("VAR ups10 x \"1\"", "ups1"), Ok(None));
    assert_eq!(parse_variable_line("VAR other", "ups1"), Ok(None));
    assert_eq!(parse_variable_line("UPS ups1 x", "ups1"), Ok(None));
    assert_eq!(
        parse_variable_line("VAR ups1 x", "ups1"),
        Err(NutError::ProtocolViolation(Expected::VariableValue, "VAR ups1 x".to_string()))
    );
    assert_eq!(
        parse_variable_line("VAR ups1", "ups1"),
        Err(NutError::ProtocolViolation(Expected::VariableName, "VAR ups1".to_string()))
    );
    assert_eq!(
        parse_variable_line("VAR  x y", ""),
        Ok(Some(("x".to_string(), "y".to_string())))
    );
}

#[test]
fn the_address_is_host_and_port() {
    assert_eq!(address("ups.lan", 3493), "ups.lan:3493");
    assert_eq!(address("::1", 0), "::1:0");
    assert_eq!(address("", 65535), ":65535");
}
