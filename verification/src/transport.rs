//! Lines on the wire: a command goes out as one line that ends in a line
//! feed, and a response comes in line by line.

use vstd::prelude::*;
use crate::error::{Expected, Failure, NutError};
use crate::number::{decimal_chars, digits_of};
use crate::text::{begins_with, chars_of, string_of};

verus! {

/// A command as it is written to the connection.
pub open spec fn framed(command: Seq<char>) -> Seq<char> {
    command.push('\n')
}

/// Whether `c` is a line feed or a carriage return.
pub open spec fn ends_line(c: char) -> bool {
    c == '\n' || c == '\r'
}

/// `raw` without the line feeds and carriage returns at its end.
pub open spec fn stripped(raw: Seq<char>) -> Seq<char>
    decreases raw.len(),
{
    if raw.len() > 0 && ends_line(raw.last()) {
        stripped(raw.drop_last())
    } else {
        raw
    }
}

/// What one read gives: a read of nothing means that the peer has closed
/// the connection; anything else is a line, taken without its line end.
pub open spec fn line_read(raw: Seq<char>) -> Result<Seq<char>, Failure> {
    if raw.len() == 0 {
        Err(Failure::ConnectionClosed)
    } else {
        Ok(stripped(raw))
    }
}

/// Whether a line acknowledges a command: it begins with `OK`.
pub open spec fn acknowledges(line: Seq<char>) -> bool {
    "OK"@.is_prefix_of(line)
}

/// The text of a result, with the failure by its view.
pub open spec fn read_view(r: Result<String, NutError>) -> Result<Seq<char>, Failure> {
    match r {
        Ok(line) => Ok(line@),
        Err(e) => Err(e@),
    }
}

/// The line to write for `command`: the command and a line feed.
pub fn send_command(command: &str) -> (wire: String)
    ensures
        wire@ == framed(command@),
{
    let mut v = chars_of(command);
    v.push('\n');
    string_of(&v)
}

/// The line that a read returned. `raw` is what the read appended, its
/// line end included; it is empty when the peer has closed the connection.
pub fn read_line(raw: &str) -> (line: Result<String, NutError>)
    ensures
        read_view(line) == line_read(raw@),
{
    let mut v = chars_of(raw);
    if v.len() == 0 {
        return Err(NutError::ConnectionClosed);
    }
    while v.len() > 0 && (v[v.len() - 1] == '\n' || v[v.len() - 1] == '\r')
        invariant
            stripped(v@) == stripped(raw@),
        decreases v.len(),
    {
        v.pop();
    }
    Ok(string_of(&v))
}

/// Checks that `line` acknowledges a command. Any other line is a
/// violation of the protocol and is handed back in the error.
pub fn expect_ok(line: &str) -> (r: Result<(), NutError>)
    ensures
        match r {
            Ok(_) => acknowledges(line@),
            Err(e) => !acknowledges(line@) && e@ == Failure::ProtocolViolation(Expected::Acknowledgement, line@),
        },
{
    let v = chars_of(line);
    let ok = chars_of("OK");
    if begins_with(&v, &ok) {
        Ok(())
    } else {
        Err(NutError::ProtocolViolation(Expected::Acknowledgement, line.to_owned()))
    }
}

/// The address of the daemon: the host, a colon, and the port.
pub open spec fn address_of(host: Seq<char>, port: u16) -> Seq<char> {
    host + seq![':'] + digits_of(port as nat)
}

/// The address to connect to.
pub fn address(host: &str, port: u16) -> (text: String)
    ensures
        text@ == address_of(host@, port),
{
    let mut v = chars_of(host);
    v.push(':');
    let mut digits = decimal_chars(port as u64);
    v.append(&mut digits);
    string_of(&v)
}

} // verus!
