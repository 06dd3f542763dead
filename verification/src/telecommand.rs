//! Telecommands and the parser that reads them from a command line.
//!
//! A line is `NAME` or `NAME(ARGUMENTS)`, with white space allowed around the
//! whole line and around the name. The name is what stands before the first
//! `(`. The arguments are what stands between that `(` and a `)` that ends the
//! line. They are a structured payload; the parser cuts it out of the line and
//! leaves the decoding to a decoder that its caller brings.

use crate::text::{chars_of, skip_leading_whitespace, skip_trailing_whitespace, trim};
use vstd::prelude::*;

verus! {

/// Arguments of the demonstration command. The two floating-point arguments
/// are held as their IEEE 754 bit patterns.
#[derive(Debug, Clone, Copy, PartialEq, Eq)]
pub struct DemoCommandWithArgumentsArgs {
    pub arg_u32: u32,
    pub arg_u64: u64,
    pub arg_bool: bool,
    pub arg_f32_bits: u32,
    pub arg_f64_bits: u64,
    pub arg_nullable_u32: Option<u32>,
}

/// A command that the ground station can send.
#[derive(Debug, Clone, Copy, PartialEq, Eq)]
pub enum Telecommand {
    Ping,
    LedOn,
    LedOff,
    HelloWorld,
    DemoCommandWithArguments(DemoCommandWithArgumentsArgs),
}

/// The names that stand for a command.
#[derive(Debug, Clone, Copy, PartialEq, Eq)]
pub enum CommandName {
    Ping,
    LedOn,
    LedOff,
    HelloWorld,
    DemoCommandWithArguments,
}

/// Why a line is no command.
#[derive(Debug, Clone, Copy, PartialEq, Eq)]
pub enum ParseError {
    /// The name is not a known one, or the arguments of a known name did not decode.
    Unknown,
}

/// Number of characters of `s` that stand before its first `(`.
pub open spec fn name_end(s: Seq<char>) -> int
    decreases s.len(),
{
    if s.len() == 0 || s.first() == '(' {
        0
    } else {
        1 + name_end(s.drop_first())
    }
}

/// The name on `line`: what stands before the first `(` of the trimmed line, trimmed.
pub open spec fn command_name_text(line: Seq<char>) -> Seq<char> {
    let trimmed = trim(line);
    trim(trimmed.take(name_end(trimmed)))
}

/// The argument payload on `line`: what stands between the first `(` of the
/// trimmed line and a `)` at its end, trimmed; empty where the line has no such pair.
pub open spec fn command_args_text(line: Seq<char>) -> Seq<char> {
    let trimmed = trim(line);
    let open = name_end(trimmed);
    if open + 1 < trimmed.len() && trimmed.last() == ')' {
        trim(trimmed.subrange(open + 1, trimmed.len() - 1))
    } else {
        Seq::empty()
    }
}

/// The command that `name` stands for. Names are matched exactly, case included.
pub open spec fn known_command(name: Seq<char>) -> Option<CommandName> {
    if name == "PING"@ {
        Some(CommandName::Ping)
    } else if name == "LED ON"@ {
        Some(CommandName::LedOn)
    } else if name == "LED OFF"@ {
        Some(CommandName::LedOff)
    } else if name == "hello_world"@ {
        Some(CommandName::HelloWorld)
    } else if name == "demo_command_with_arguments"@ {
        Some(CommandName::DemoCommandWithArguments)
    } else {
        None
    }
}

/// The command that a name gives, once `demo_args` says what decoding the
/// argument payload gave (`None`: it did not decode).
pub open spec fn command_for(
    name: Option<CommandName>,
    demo_args: Option<DemoCommandWithArgumentsArgs>,
) -> Result<Telecommand, ParseError> {
    match name {
        Some(CommandName::Ping) => Ok(Telecommand::Ping),
        Some(CommandName::LedOn) => Ok(Telecommand::LedOn),
        Some(CommandName::LedOff) => Ok(Telecommand::LedOff),
        Some(CommandName::HelloWorld) => Ok(Telecommand::HelloWorld),
        Some(CommandName::DemoCommandWithArguments) => match demo_args {
            Some(args) => Ok(Telecommand::DemoCommandWithArguments(args)),
            None => Err(ParseError::Unknown),
        },
        None => Err(ParseError::Unknown),
    }
}

/// What `line` parses to, given what decoding its argument payload gave.
pub open spec fn parse_spec(
    line: Seq<char>,
    demo_args: Option<DemoCommandWithArgumentsArgs>,
) -> Result<Telecommand, ParseError> {
    command_for(known_command(command_name_text(line)), demo_args)
}

/// Whether `parsed` is what `line` parses to when `decode` decodes its
/// argument payload. The decoder is asked only where the line names the
/// demonstration command, and then it is handed the payload of the line.
pub open spec fn parses_with<F: Fn(&str) -> Option<DemoCommandWithArgumentsArgs>>(
    decode: F,
    line: Seq<char>,
    parsed: Result<Telecommand, ParseError>,
) -> bool {
    if known_command(command_name_text(line)) == Some(CommandName::DemoCommandWithArguments) {
        exists|payload: &str, decoded: Option<DemoCommandWithArgumentsArgs>|
            payload@ == command_args_text(line) && #[trigger] call_ensures(
                decode,
                (payload,),
                decoded,
            ) && parsed == parse_spec(line, decoded)
    } else {
        parsed == parse_spec(line, None)
    }
}

/// Where the name and the argument payload stand among the characters of a line.
struct Layout {
    name_from: usize,
    name_to: usize,
    args_from: usize,
    args_to: usize,
}

/// Position of the first `(` in `chars[from..to]`, or `to` where there is none.
fn find_open_paren(chars: &Vec<char>, from: usize, to: usize) -> (open: usize)
    requires
        from <= to <= chars@.len(),
    ensures
        from <= open <= to,
        open - from == name_end(chars@.subrange(from as int, to as int)),
{
    let mut open: usize = from;
    while open < to && chars[open] != '('
        invariant
            from <= open <= to <= chars@.len(),
            name_end(chars@.subrange(from as int, to as int)) == (open - from) + name_end(
                chars@.subrange(open as int, to as int),
            ),
        decreases to - open,
    {
        assert(chars@.subrange(open as int, to as int).drop_first() =~= chars@.subrange(
            open + 1,
            to as int,
        ));
        open += 1;
    }
    open
}

/// Finds the name and the argument payload among the characters of a line.
fn layout(chars: &Vec<char>) -> (found: Layout)
    ensures
        found.name_from <= found.name_to <= chars@.len(),
        found.args_from <= found.args_to <= chars@.len(),
        chars@.subrange(found.name_from as int, found.name_to as int) == command_name_text(
            chars@,
        ),
        chars@.subrange(found.args_from as int, found.args_to as int) == command_args_text(
            chars@,
        ),
{
    let len = chars.len();
    let from = skip_leading_whitespace(chars, 0, len);
    let to = skip_trailing_whitespace(chars, from, len);
    let ghost trimmed = chars@.subrange(from as int, to as int);
    assert(chars@.subrange(0, len as int) =~= chars@);

    let open = find_open_paren(chars, from, to);
    assert(chars@.subrange(from as int, open as int) =~= trimmed.take(name_end(trimmed)));
    let name_from = skip_leading_whitespace(chars, from, open);
    let name_to = skip_trailing_whitespace(chars, name_from, open);

    if to - open > 1 && chars[to - 1] == ')' {
        assert(chars@.subrange(open + 1, to - 1) =~= trimmed.subrange(
            name_end(trimmed) + 1,
            trimmed.len() - 1,
        ));
        let args_from = skip_leading_whitespace(chars, open + 1, to - 1);
        let args_to = skip_trailing_whitespace(chars, args_from, to - 1);
        Layout { name_from, name_to, args_from, args_to }
    } else {
        Layout { name_from, name_to, args_from: 0, args_to: 0 }
    }
}

/// Whether `chars[from..to]` spells `word`.
fn range_is(chars: &Vec<char>, from: usize, to: usize, word: &str) -> (same: bool)
    requires
        from <= to <= chars@.len(),
    ensures
        same == (chars@.subrange(from as int, to as int) == word@),
{
    let letters = chars_of(word);
    if letters.len() != to - from {
        return false;
    }
    let mut i: usize = 0;
    while i < letters.len()
        invariant
            from <= to <= chars@.len(),
            letters@ == word@,
            letters@.len() == to - from,
            i <= letters@.len(),
            forall|k: int| 0 <= k < i ==> chars@[from + k] == letters@[k],
        decreases letters@.len() - i,
    {
        if chars[from + i] != letters[i] {
            return false;
        }
        i += 1;
    }
    assert(chars@.subrange(from as int, to as int) =~= word@);
    true
}

/// The command that the name on `input` stands for, if it is a known one.
pub fn command_name(input: &str) -> (name: Option<CommandName>)
    ensures
        name == known_command(command_name_text(input@)),
{
    let chars = chars_of(input);
    let found = layout(&chars);
    let from = found.name_from;
    let to = found.name_to;
    if range_is(&chars, from, to, "PING") {
        Some(CommandName::Ping)
    } else if range_is(&chars, from, to, "LED ON") {
        Some(CommandName::LedOn)
    } else if range_is(&chars, from, to, "LED OFF") {
        Some(CommandName::LedOff)
    } else if range_is(&chars, from, to, "hello_world") {
        Some(CommandName::HelloWorld)
    } else if range_is(&chars, from, to, "demo_command_with_arguments") {
        Some(CommandName::DemoCommandWithArguments)
    } else {
        None
    }
}

/// The argument payload on `input`, as it is handed to the decoder.
pub fn command_arguments(input: &str) -> (payload: &str)
    ensures
        payload@ == command_args_text(input@),
{
    let chars = chars_of(input);
    let found = layout(&chars);
    input.substring_char(found.args_from, found.args_to)
}

/// The command that a name gives, once `demo_args` says what decoding the
/// argument payload gave, `None` where it did not decode. Only the
/// demonstration command looks at it.
pub fn resolve_command(
    name: Option<CommandName>,
    demo_args: Option<DemoCommandWithArgumentsArgs>,
) -> (parsed: Result<Telecommand, ParseError>)
    ensures
        parsed == command_for(name, demo_args),
{
    match name {
        Some(CommandName::Ping) => Ok(Telecommand::Ping),
        Some(CommandName::LedOn) => Ok(Telecommand::LedOn),
        Some(CommandName::LedOff) => Ok(Telecommand::LedOff),
        Some(CommandName::HelloWorld) => Ok(Telecommand::HelloWorld),
        Some(CommandName::DemoCommandWithArguments) => match demo_args {
            Some(args) => Ok(Telecommand::DemoCommandWithArguments(args)),
            None => Err(ParseError::Unknown),
        },
        None => Err(ParseError::Unknown),
    }
}

/// Parses a command line. Where the line names the demonstration command,
/// `decode` is handed the argument payload and says what it decodes to,
/// `None` where it does not decode.
pub fn parse_telecommand<F: Fn(&str) -> Option<DemoCommandWithArgumentsArgs>>(
    input: &str,
    decode: F,
) -> (parsed: Result<Telecommand, ParseError>)
    requires
        forall|payload: &str|
            payload@ == command_args_text(input@) ==> call_requires(decode, (payload,)),
    ensures
        parses_with(decode, input@, parsed),
{
    let name = command_name(input);
    let demo_args = match name {
        Some(CommandName::DemoCommandWithArguments) => decode(command_arguments(input)),
        _ => None,
    };
    resolve_command(name, demo_args)
}

} // verus!
