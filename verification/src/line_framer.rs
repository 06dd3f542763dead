//! Cuts the received byte stream into command lines.
//!
//! Bytes collect in a bounded buffer. A line feed ends the line and is not
//! part of it; the byte that fills the buffer ends the line too and is its last
//! byte, so that an overlong line is cut into pieces and no byte of it is lost.
//! A line that ends is read as UTF-8 text and handed on without its trailing
//! white space; bytes that are not UTF-8 are dropped without a word, and a line
//! feed that finds the buffer empty gives no line.

use crate::text::{trim_end, trim_text_end, utf8_text};
use vstd::prelude::*;
use vstd::utf8::{decode_utf8, valid_utf8};

verus! {

/// Most bytes that one command line can hold.
pub const MAX_TELECOMMAND_STR_LENGTH: usize = 256;

/// The byte that ends a line.
pub const LINE_DELIMITER: u8 = 0x0a;

/// The line that the collected bytes `pending` give when they are flushed.
pub open spec fn line_of(pending: Seq<u8>) -> Option<Seq<char>> {
    if pending.len() > 0 && valid_utf8(pending) {
        Some(trim_end(decode_utf8(pending)))
    } else {
        None
    }
}

/// Whether `byte`, arriving after `pending`, ends the line.
pub open spec fn ends_line(pending: Seq<u8>, byte: u8) -> bool {
    byte == LINE_DELIMITER || pending.len() + 1 >= MAX_TELECOMMAND_STR_LENGTH
}

/// The bytes of the line that `byte` ends when it arrives after `pending`.
pub open spec fn ended_line(pending: Seq<u8>, byte: u8) -> Seq<u8> {
    if byte == LINE_DELIMITER {
        pending
    } else {
        pending.push(byte)
    }
}

/// The collected bytes once `byte` has arrived after `pending`.
pub open spec fn after_feed(pending: Seq<u8>, byte: u8) -> Seq<u8> {
    if ends_line(pending, byte) {
        Seq::empty()
    } else {
        pending.push(byte)
    }
}

/// The line, if any, that is handed on when `byte` arrives after `pending`.
pub open spec fn emitted_by_feed(pending: Seq<u8>, byte: u8) -> Option<Seq<char>> {
    if ends_line(pending, byte) {
        line_of(ended_line(pending, byte))
    } else {
        None
    }
}

/// The collected bytes once all of `bytes` have arrived, in order, after `pending`.
pub open spec fn pending_after(pending: Seq<u8>, bytes: Seq<u8>) -> Seq<u8>
    decreases bytes.len(),
{
    if bytes.len() == 0 {
        pending
    } else {
        after_feed(pending_after(pending, bytes.drop_last()), bytes.last())
    }
}

/// The lines handed on, in order, while `bytes` arrive after `pending`.
pub open spec fn lines_from(pending: Seq<u8>, bytes: Seq<u8>) -> Seq<Seq<char>>
    decreases bytes.len(),
{
    if bytes.len() == 0 {
        Seq::empty()
    } else {
        let earlier = lines_from(pending, bytes.drop_last());
        match emitted_by_feed(pending_after(pending, bytes.drop_last()), bytes.last()) {
            Some(line) => earlier.push(line),
            None => earlier,
        }
    }
}

/// What an optional line of text says.
pub open spec fn line_view(line: Option<String>) -> Option<Seq<char>> {
    match line {
        Some(text) => Some(text@),
        None => None,
    }
}

/// Line buffer with its write cursor.
pub struct LineFramer {
    buf: [u8; MAX_TELECOMMAND_STR_LENGTH],
    idx: usize,
}

impl View for LineFramer {
    type V = Seq<u8>;

    /// The bytes collected for the line that has not ended yet.
    closed spec fn view(&self) -> Seq<u8> {
        self.buf@.take(self.idx as int)
    }
}

impl LineFramer {
    #[verifier::type_invariant]
    spec fn cursor_in_range(&self) -> bool {
        self.idx < MAX_TELECOMMAND_STR_LENGTH
    }

    /// A framer that has collected nothing.
    pub fn new() -> (framer: Self)
        ensures
            framer@ == Seq::<u8>::empty(),
    {
        LineFramer { buf: [0u8; MAX_TELECOMMAND_STR_LENGTH], idx: 0 }
    }

    /// Number of bytes collected for the line that has not ended yet.
    pub fn pending_len(&self) -> (n: usize)
        ensures
            n == self@.len(),
            n < MAX_TELECOMMAND_STR_LENGTH,
    {
        proof {
            use_type_invariant(self);
        }
        self.idx
    }

    /// Takes in the next received byte and hands on the line that it ends, if any.
    pub fn feed(&mut self, byte: u8) -> (line: Option<String>)
        ensures
            final(self)@ == after_feed(old(self)@, byte),
            line_view(line) == emitted_by_feed(old(self)@, byte),
    {
        proof {
            use_type_invariant(&*self);
        }
        let idx = self.idx;
        if byte == LINE_DELIMITER {
            let line = flushed_line(&self.buf, idx);
            self.idx = 0;
            line
        } else {
            self.buf[idx] = byte;
            assert(self.buf@.take(idx + 1) =~= old(self)@.push(byte));
            if idx + 1 >= MAX_TELECOMMAND_STR_LENGTH {
                let line = flushed_line(&self.buf, idx + 1);
                self.idx = 0;
                line
            } else {
                self.idx = idx + 1;
                None
            }
        }
    }
}

/// The line that the first `len` bytes of `buf` give.
fn flushed_line(buf: &[u8; MAX_TELECOMMAND_STR_LENGTH], len: usize) -> (line: Option<String>)
    requires
        len <= MAX_TELECOMMAND_STR_LENGTH,
    ensures
        line_view(line) == line_of(buf@.take(len as int)),
{
    if len == 0 {
        return None;
    }
    let collected = vstd::slice::slice_subrange(buf.as_slice(), 0, len);
    match utf8_text(collected) {
        Some(text) => Some(trim_text_end(text).to_owned()),
        None => None,
    }
}

/// Feeding `first` and then `second` leaves what feeding `second` leaves
/// after what `first` left, and hands on the lines of both, in that order.
pub proof fn lemma_feed_in_two_parts(pending: Seq<u8>, first: Seq<u8>, second: Seq<u8>)
    ensures
        pending_after(pending, first + second) == pending_after(
            pending_after(pending, first),
            second,
        ),
        lines_from(pending, first + second) == lines_from(pending, first) + lines_from(
            pending_after(pending, first),
            second,
        ),
    decreases second.len(),
{
    if second.len() > 0 {
        assert((first + second).drop_last() =~= first + second.drop_last());
        lemma_feed_in_two_parts(pending, first, second.drop_last());
    }
}

/// A complete line, fed to a framer that has collected nothing, leaves it with
/// nothing collected; fed twice in a row, it gives the same lines twice.
pub proof fn lemma_repeated_line_repeats_output(line: Seq<u8>)
    requires
        line.len() > 0,
        line.last() == LINE_DELIMITER,
    ensures
        pending_after(Seq::empty(), line) == Seq::<u8>::empty(),
        lines_from(Seq::empty(), line + line) == lines_from(Seq::empty(), line) + lines_from(
            Seq::empty(),
            line,
        ),
{
    lemma_feed_in_two_parts(Seq::empty(), line, line);
}

} // verus!
