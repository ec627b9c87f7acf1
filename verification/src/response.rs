//! The body lines of the two list responses.
//!
//! A device line reads `UPS <name> "<description>"`, a variable line
//! `VAR <device> <name> "<value>"`. The fields are parted by single spaces;
//! the last field runs to the end of the line.

use vstd::prelude::*;
use crate::error::{Expected, Failure, NutError};
use crate::quoting::{strip_quotes, unquoted};
use crate::text::{begins_with, chars_of, same_chars, string_of};

verus! {

/// The index of the first space of `s`, or the length of `s` if it has none.
pub open spec fn first_space(s: Seq<char>) -> int
    decreases s.len(),
{
    if s.len() == 0 || s[0] == ' ' {
        0
    } else {
        1 + first_space(s.skip(1))
    }
}

/// Whether `s` holds a space.
pub open spec fn has_space(s: Seq<char>) -> bool {
    first_space(s) < s.len()
}

/// What stands before the first space of `s`: all of `s` if it has none.
pub open spec fn before_space(s: Seq<char>) -> Seq<char> {
    s.take(first_space(s))
}

/// What stands after the first space of `s`.
pub open spec fn after_space(s: Seq<char>) -> Seq<char> {
    s.skip(first_space(s) + 1)
}

/// What a body line adds to a list: nothing (`Ok(None)`), an entry, or a
/// failure where the line begins like an entry and lacks a field.
pub type Entry = Result<Option<(Seq<char>, Seq<char>)>, Failure>;

/// The meaning of a body line of the device list. A line that does not
/// begin with `UPS ` is passed over. Otherwise the name runs to the next
/// space and the description is the rest, taken out of its quotes; a line
/// without that second space is a violation of the protocol.
pub open spec fn device_line(line: Seq<char>) -> Entry {
    if !"UPS "@.is_prefix_of(line) {
        Ok(None)
    } else {
        let rest = line.skip("UPS "@.len() as int);
        if has_space(rest) {
            Ok(Some((before_space(rest), unquoted(after_space(rest)))))
        } else {
            Err(Failure::ProtocolViolation(Expected::Description, line))
        }
    }
}

/// The meaning of a body line of the variable list of `device`. A line
/// that does not begin with `VAR `, or that names another device, is passed
/// over. Otherwise the name of the variable runs to the next space and the
/// value is the rest, taken out of its quotes; a line that lacks one of the
/// two is a violation of the protocol.
pub open spec fn variable_line(line: Seq<char>, device: Seq<char>) -> Entry {
    if !"VAR "@.is_prefix_of(line) {
        Ok(None)
    } else {
        let rest = line.skip("VAR "@.len() as int);
        let named = after_space(rest);
        if before_space(rest) != device {
            Ok(None)
        } else if !has_space(rest) {
            Err(Failure::ProtocolViolation(Expected::VariableName, line))
        } else if !has_space(named) {
            Err(Failure::ProtocolViolation(Expected::VariableValue, line))
        } else {
            Ok(Some((before_space(named), unquoted(after_space(named)))))
        }
    }
}

/// The view of what a parser returned.
pub open spec fn entry_view(r: Result<Option<(String, String)>, NutError>) -> Entry {
    match r {
        Ok(None) => Ok(None),
        Ok(Some(pair)) => Ok(Some((pair.0@, pair.1@))),
        Err(e) => Err(e@),
    }
}

fn find_space(v: &Vec<char>, from: usize) -> (at: usize)
    requires
        from <= v.len(),
    ensures
        from <= at <= v.len(),
        at == from + first_space(v@.skip(from as int)),
{
    let mut i: usize = from;
    while i < v.len() && v[i] != ' '
        invariant
            from <= i <= v.len(),
            first_space(v@.skip(from as int)) == (i - from) + first_space(v@.skip(i as int)),
        decreases v.len() - i,
    {
        assert(v@.skip(i as int).skip(1) == v@.skip(i + 1));
        i = i + 1;
    }
    i
}

fn copy_range(v: &Vec<char>, from: usize, to: usize) -> (out: Vec<char>)
    requires
        from <= to <= v.len(),
    ensures
        out@ == v@.subrange(from as int, to as int),
{
    let mut out: Vec<char> = Vec::new();
    let mut i: usize = from;
    while i < to
        invariant
            from <= i <= to <= v.len(),
            out@ == v@.subrange(from as int, i as int),
        decreases to - i,
    {
        out.push(v[i]);
        i = i + 1;
    }
    out
}

/// Reads a body line of the device list.
pub fn parse_device_line(line: &str) -> (r: Result<Option<(String, String)>, NutError>)
    ensures
        entry_view(r) == device_line(line@),
{
    let v = chars_of(line);
    let prefix = chars_of("UPS ");
    if !begins_with(&v, &prefix) {
        return Ok(None);
    }
    let start = prefix.len();
    let ghost rest = v@.skip(start as int);
    let space = find_space(&v, start);
    if space == v.len() {
        return Err(NutError::ProtocolViolation(Expected::Description, line.to_owned()));
    }
    let name = copy_range(&v, start, space);
    let raw = copy_range(&v, space + 1, v.len());
    assert(name@ == before_space(rest));
    assert(raw@ == after_space(rest));
    let description = strip_quotes(string_of(&raw).as_str());
    Ok(Some((string_of(&name), description)))
}

/// Reads a body line of the variable list of `device`.
pub fn parse_variable_line(line: &str, device: &str) -> (r: Result<Option<(String, String)>, NutError>)
    ensures
        entry_view(r) == variable_line(line@, device@),
{
    let v = chars_of(line);
    let prefix = chars_of("VAR ");
    if !begins_with(&v, &prefix) {
        return Ok(None);
    }
    let start = prefix.len();
    let ghost rest = v@.skip(start as int);
    let space = find_space(&v, start);
    let owner = copy_range(&v, start, space);
    assert(owner@ == before_space(rest));
    let wanted = chars_of(device);
    if !same_chars(&owner, &wanted) {
        return Ok(None);
    }
    if space == v.len() {
        return Err(NutError::ProtocolViolation(Expected::VariableName, line.to_owned()));
    }
    let ghost named = after_space(rest);
    assert(named == v@.skip(space + 1));
    let second = find_space(&v, space + 1);
    if second == v.len() {
        return Err(NutError::ProtocolViolation(Expected::VariableValue, line.to_owned()));
    }
    let name = copy_range(&v, space + 1, second);
    let raw = copy_range(&v, second + 1, v.len());
    assert(name@ == before_space(named));
    assert(raw@ == after_space(named));
    let value = strip_quotes(string_of(&raw).as_str());
    Ok(Some((string_of(&name), value)))
}

} // verus!
