//! Answers telecommands.
//!
//! Every command is answered with one fixed line, ended by carriage return and
//! line feed. The answer is appended to the bytes that wait for the transport;
//! the embedding sends them. Nothing else is kept between two commands.

use crate::telecommand::{command_args_text, parse_telecommand, parses_with,
    DemoCommandWithArgumentsArgs, ParseError, Telecommand};
use vstd::prelude::*;
use vstd::utf8::encode_utf8;

verus! {

/// Why a line was not carried out.
#[derive(Debug, Clone, Copy, PartialEq, Eq)]
pub enum DispatchError {
    /// The line is no known command.
    UnknownCommand,
}

/// The bytes of a response line that says `text`.
pub open spec fn response_line(text: Seq<char>) -> Seq<u8> {
    encode_utf8(text) + seq![0x0du8, 0x0au8]
}

/// What the answer to `cmd` says.
pub open spec fn response_text(cmd: Telecommand) -> Seq<char> {
    match cmd {
        Telecommand::Ping => "PONG"@,
        Telecommand::LedOn => "LED ON"@,
        Telecommand::LedOff => "LED OFF"@,
        Telecommand::HelloWorld => "HELLO WORLD"@,
        Telecommand::DemoCommandWithArguments(_) =>
            "DEMO COMMAND WITH ARGUMENTS EXECUTED. See RTT output for details."@,
    }
}

/// What the answer to a line that is no command says.
pub open spec fn unknown_command_text() -> Seq<char> {
    "ERR: unknown command"@
}

/// What waits for the transport once `cmd` has been answered after `sent`.
pub open spec fn after_dispatch(sent: Seq<u8>, cmd: Telecommand) -> Seq<u8> {
    sent + response_line(response_text(cmd))
}

/// What waits for the transport once a line has been handled after `sent`,
/// where `parsed` is what the line parsed to.
pub open spec fn after_line(sent: Seq<u8>, parsed: Result<Telecommand, ParseError>) -> Seq<u8> {
    match parsed {
        Ok(cmd) => after_dispatch(sent, cmd),
        Err(_) => sent + response_line(unknown_command_text()),
    }
}

/// Appends the response line that says `text`.
fn send_line(uplink: &mut Vec<u8>, text: &str)
    ensures
        final(uplink)@ == old(uplink)@ + response_line(text@),
{
    uplink.extend_from_slice(text.as_bytes());
    uplink.push(0x0d);
    uplink.push(0x0a);
}

/// Carries out the greeting command.
pub fn run_hello_world_telecommand(uplink: &mut Vec<u8>) -> (outcome: Result<(), DispatchError>)
    ensures
        outcome == Ok::<(), DispatchError>(()),
        final(uplink)@ == after_dispatch(old(uplink)@, Telecommand::HelloWorld),
{
    send_line(uplink, "HELLO WORLD");
    Ok(())
}

/// Carries out the demonstration command. Its arguments change nothing in the answer.
pub fn run_demo_command_with_arguments(
    args: DemoCommandWithArgumentsArgs,
    uplink: &mut Vec<u8>,
) -> (outcome: Result<(), DispatchError>)
    ensures
        outcome == Ok::<(), DispatchError>(()),
        final(uplink)@ == after_dispatch(
            old(uplink)@,
            Telecommand::DemoCommandWithArguments(args),
        ),
{
    send_line(uplink, "DEMO COMMAND WITH ARGUMENTS EXECUTED. See RTT output for details.");
    Ok(())
}

/// Carries out `cmd`: appends its answer to `uplink`. Every command succeeds.
pub fn dispatch(cmd: Telecommand, uplink: &mut Vec<u8>) -> (outcome: Result<(), DispatchError>)
    ensures
        outcome == Ok::<(), DispatchError>(()),
        final(uplink)@ == after_dispatch(old(uplink)@, cmd),
{
    match cmd {
        Telecommand::Ping => {
            send_line(uplink, "PONG");
            Ok(())
        },
        Telecommand::LedOn => {
            send_line(uplink, "LED ON");
            Ok(())
        },
        Telecommand::LedOff => {
            send_line(uplink, "LED OFF");
            Ok(())
        },
        Telecommand::HelloWorld => run_hello_world_telecommand(uplink),
        Telecommand::DemoCommandWithArguments(args) => run_demo_command_with_arguments(
            args,
            uplink,
        ),
    }
}

/// Answers a line that has been parsed: carries the command out, or says
/// that the command is unknown.
pub fn answer_line(parsed: Result<Telecommand, ParseError>, uplink: &mut Vec<u8>) -> (outcome:
    Result<(), DispatchError>)
    ensures
        final(uplink)@ == after_line(old(uplink)@, parsed),
        outcome == match parsed {
            Ok(_) => Ok::<(), DispatchError>(()),
            Err(_) => Err(DispatchError::UnknownCommand),
        },
{
    match parsed {
        Ok(cmd) => dispatch(cmd, uplink),
        Err(_) => {
            send_line(uplink, "ERR: unknown command");
            Err(DispatchError::UnknownCommand)
        },
    }
}

/// Handles one command line: parses it, with `decode` for the argument
/// payload of the demonstration command, and answers it.
pub fn dispatch_command<F: Fn(&str) -> Option<DemoCommandWithArgumentsArgs>>(
    cmd_str: &str,
    decode: F,
    uplink: &mut Vec<u8>,
) -> (outcome: Result<(), DispatchError>)
    requires
        forall|payload: &str|
            payload@ == command_args_text(cmd_str@) ==> call_requires(decode, (payload,)),
    ensures
        exists|parsed: Result<Telecommand, ParseError>|
            #[trigger] parses_with(decode, cmd_str@, parsed) && final(uplink)@ == after_line(
                old(uplink)@,
                parsed,
            ) && outcome == match parsed {
                Ok(_) => Ok::<(), DispatchError>(()),
                Err(_) => Err(DispatchError::UnknownCommand),
            },
{
    let parsed = parse_telecommand(cmd_str, decode);
    answer_line(parsed, uplink)
}

/// The answer to a command depends on the command alone: answering it twice
/// appends the same line twice, whatever was sent before.
pub proof fn lemma_dispatch_keeps_no_state(cmd: Telecommand, sent: Seq<u8>, other: Seq<u8>)
    ensures
        after_dispatch(after_dispatch(sent, cmd), cmd) == sent + response_line(
            response_text(cmd),
        ) + response_line(response_text(cmd)),
        after_dispatch(sent, cmd).skip(sent.len() as int) == after_dispatch(other, cmd).skip(
            other.len() as int,
        ),
{
    let line = response_line(response_text(cmd));
}

} // verus!
