//! The umbilical link as the command loop sees it: received bytes go into the
//! ring buffer, and the commands that have arrived in full are served from it.

use crate::dispatch::{after_line, answer_line};
use crate::line_framer::{lines_from, pending_after, LineFramer};
use crate::ring_buffer::{after_push_all, RingBuffer};
use crate::telecommand::{command_arguments, command_name, parses_with, resolve_command,
    CommandName, DemoCommandWithArgumentsArgs, ParseError, Telecommand};
use vstd::prelude::*;

verus! {

/// Queues the bytes that the receiver read, in order. Bytes that find the
/// queue full are dropped; the result counts them.
pub fn poll_uart_rx(ring: &mut RingBuffer, received: &[u8]) -> (dropped: usize)
    ensures
        final(ring)@ == after_push_all(old(ring)@, received@),
        dropped == old(ring)@.len() + received@.len() - final(ring)@.len(),
{
    let mut dropped: usize = 0;
    let mut i: usize = 0;
    while i < received.len()
        invariant
            i <= received@.len(),
            dropped <= i,
            ring@ == after_push_all(old(ring)@, received@.take(i as int)),
            dropped == old(ring)@.len() + i - ring@.len(),
        decreases received@.len() - i,
    {
        assert(received@.take(i + 1).drop_last() =~= received@.take(i as int));
        if !ring.push(received[i]) {
            dropped += 1;
        }
        i += 1;
    }
    assert(received@.take(i as int) =~= received@);
    dropped
}

/// What waits for the transport once the lines that parsed to `parsed` have
/// been answered, in order, after `sent`.
pub open spec fn after_lines(sent: Seq<u8>, parsed: Seq<Result<Telecommand, ParseError>>) -> Seq<
    u8,
>
    decreases parsed.len(),
{
    if parsed.len() == 0 {
        sent
    } else {
        after_line(after_lines(sent, parsed.drop_last()), parsed.last())
    }
}

/// Serves the commands that have been received in full: takes every queued
/// byte through the framer, parses each line that is handed on, with `decode`
/// for the argument payload of the demonstration command, and appends the
/// answers to `uplink`. The result says what each line parsed to.
pub fn process_umbilical_commands<F: Fn(&str) -> Option<DemoCommandWithArgumentsArgs>>(
    ring: &mut RingBuffer,
    framer: &mut LineFramer,
    decode: F,
    uplink: &mut Vec<u8>,
) -> (served: Vec<Result<Telecommand, ParseError>>)
    requires
        forall|payload: &str| call_requires(decode, (payload,)),
    ensures
        final(ring)@ == Seq::<u8>::empty(),
        final(framer)@ == pending_after(old(framer)@, old(ring)@),
        served@.len() == lines_from(old(framer)@, old(ring)@).len(),
        forall|i: int|
            0 <= i < served@.len() ==> parses_with(
                decode,
                #[trigger] lines_from(old(framer)@, old(ring)@)[i],
                served@[i],
            ),
        final(uplink)@ == after_lines(old(uplink)@, served@),
{
    let ghost queued = ring@;
    let ghost start = framer@;
    let ghost mut taken: int = 0;
    let mut served: Vec<Result<Telecommand, ParseError>> = Vec::new();
    loop
        invariant
            queued == old(ring)@,
            start == old(framer)@,
            forall|payload: &str| call_requires(decode, (payload,)),
            0 <= taken <= queued.len(),
            ring@ == queued.skip(taken),
            framer@ == pending_after(start, queued.take(taken)),
            served@.len() == lines_from(start, queued.take(taken)).len(),
            forall|i: int|
                0 <= i < served@.len() ==> parses_with(
                    decode,
                    #[trigger] lines_from(start, queued.take(taken))[i],
                    served@[i],
                ),
            uplink@ == after_lines(old(uplink)@, served@),
        decreases queued.len() - taken,
    {
        let ghost lines = lines_from(start, queued.take(taken));
        let ghost answered = served@;
        match ring.pop() {
            None => {
                assert(queued.take(taken) =~= queued);
                return served;
            },
            Some(byte) => {
                let line = framer.feed(byte);
                proof {
                    assert(queued.take(taken + 1).drop_last() =~= queued.take(taken));
                    taken = taken + 1;
                }
                if let Some(text) = line {
                    let name = command_name(text.as_str());
                    let demo_args = match name {
                        Some(CommandName::DemoCommandWithArguments) => decode(
                            command_arguments(text.as_str()),
                        ),
                        _ => None,
                    };
                    let parsed = resolve_command(name, demo_args);
                    assert(parses_with(decode, text@, parsed));
                    let _ = answer_line(parsed, uplink);
                    served.push(parsed);
                    proof {
                        assert(served@.drop_last() =~= answered);
                        assert(lines_from(start, queued.take(taken)) == lines.push(text@));
                    }
                }
            },
        }
    }
}

} // verus!
