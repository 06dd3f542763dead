//! Driver for a NAND flash device behind a serial bus and a chip-select line.
//!
//! The driver decides; the embedding moves the bits. Every command is one
//! transaction: select the chip, make one exchange on the bus, release the
//! chip, and for a reset wait until the device has settled. A `Transaction`
//! names the next action, and `advance` is told how that action went. The
//! chip-select line is released after the exchange whatever the exchange
//! gave, and a failed exchange is reported, never repeated.

use vstd::prelude::*;
use vstd::slice::{slice_subrange, slice_to_vec};

verus! {

/// Command byte of a reset.
pub const CMD_RESET: u8 = 0xFF;

/// Command byte of an identification read.
pub const CMD_READ_ID: u8 = 0x9F;

/// Command byte of a page read.
pub const CMD_READ_PAGE: u8 = 0x13;

/// Length of the exchange that reads the identification.
pub const READ_ID_LEN: usize = 6;

/// Processor cycles to wait after a reset before the device is used again.
pub const RESET_SETTLE_CYCLES: u32 = 640_000;

/// Who made the device, and which device it is.
#[derive(Debug, Clone, Copy, PartialEq, Eq)]
pub struct NandId {
    pub manufacturer: u8,
    pub device: u8,
}

/// Layout of a page read: how many address bytes follow the command byte,
/// how many dummy bytes follow those, and how many bytes of page data follow.
#[derive(Debug, Clone, Copy, PartialEq, Eq)]
pub struct PageGeometry {
    pub address_bytes: u8,
    pub dummy_bytes: u8,
    pub data_bytes: u16,
}

/// A command to the device.
#[derive(Debug, Clone, Copy, PartialEq, Eq)]
pub enum Operation {
    Reset,
    ReadId,
    ReadPage { page: u32, geometry: PageGeometry },
}

/// Where a transaction stands: the action that is due.
#[derive(Debug, Clone, Copy, PartialEq, Eq)]
pub enum Phase {
    Select,
    Exchange,
    Release,
    Settle,
}

/// What the embedding is asked to do.
#[derive(Debug, Clone, Copy, PartialEq, Eq)]
pub enum BusAction {
    /// Drive chip-select low.
    AssertChipSelect,
    /// Clock out the transaction's frame.
    Write,
    /// Clock out the transaction's frame and keep what is clocked in meanwhile.
    Transfer,
    /// Drive chip-select high.
    ReleaseChipSelect,
    /// Busy-wait for this many processor cycles.
    Settle(u32),
}

/// How an action went.
#[derive(Debug, PartialEq, Eq)]
pub enum BusEvent {
    /// The action was carried out; it brought no data.
    Done,
    /// The exchange was carried out; these bytes were clocked in.
    Received(Vec<u8>),
    /// The bus reported an error.
    Failed,
}

/// Why a transaction gave no reply.
#[derive(Debug, Clone, Copy, PartialEq, Eq)]
pub enum NandError {
    /// The bus reported an error during the exchange.
    Bus,
    /// The exchange did not bring as many bytes as were clocked out.
    Framing,
}

/// What a transaction that succeeded gave.
#[derive(Debug, PartialEq, Eq)]
pub enum Reply {
    Reset,
    Id(NandId),
    Page(Vec<u8>),
}

/// What a transaction gave, with page data as a sequence.
pub enum Outcome {
    Reset,
    Id(NandId),
    Page(Seq<u8>),
    Failed(NandError),
}

/// Byte `index` of the page address, most significant byte first, in an
/// address field of `width` bytes.
pub open spec fn address_byte(page: u32, width: u8, index: u8) -> u8 {
    let shift = 8 * (width - 1 - index);
    if shift >= 32 {
        0u8
    } else {
        ((page >> (shift as u32)) & 0xff) as u8
    }
}

/// Whether `page` can be written in an address field of `width` bytes.
pub open spec fn page_fits(page: u32, width: u8) -> bool {
    width >= 4 || (page >> ((8 * width) as u32)) == 0
}

/// Number of bytes that stand before the page data in a page read.
pub open spec fn page_header_len(geometry: PageGeometry) -> int {
    1 + geometry.address_bytes + geometry.dummy_bytes
}

/// The bytes that the operation clocks out.
pub open spec fn frame_of(operation: Operation) -> Seq<u8> {
    match operation {
        Operation::Reset => seq![CMD_RESET],
        Operation::ReadId => seq![CMD_READ_ID, 0u8, 0u8, 0u8, 0u8, 0u8],
        Operation::ReadPage { page, geometry } => Seq::new(
            (page_header_len(geometry) + geometry.data_bytes) as nat,
            |i: int|
                if i == 0 {
                    CMD_READ_PAGE
                } else if i <= geometry.address_bytes {
                    address_byte(page, geometry.address_bytes, (i - 1) as u8)
                } else {
                    0u8
                },
        ),
    }
}

/// Whether the operation reads what the device clocks out.
pub open spec fn reads_back(operation: Operation) -> bool {
    !(operation is Reset)
}

/// Cycles to wait once the operation's exchange is over.
pub open spec fn settle_cycles(operation: Operation) -> u32 {
    match operation {
        Operation::Reset => RESET_SETTLE_CYCLES,
        _ => 0,
    }
}

/// The identification in the response to an identification read: the
/// manufacturer is its third byte, the device its fourth.
pub open spec fn id_in(response: Seq<u8>) -> Option<NandId> {
    if response.len() == READ_ID_LEN {
        Some(NandId { manufacturer: response[2], device: response[3] })
    } else {
        None
    }
}

/// What the operation gives when its exchange went as `event` says.
pub open spec fn outcome_of(operation: Operation, event: BusEvent) -> Outcome {
    match event {
        BusEvent::Failed => Outcome::Failed(NandError::Bus),
        BusEvent::Done => if reads_back(operation) {
            Outcome::Failed(NandError::Framing)
        } else {
            Outcome::Reset
        },
        BusEvent::Received(response) => match operation {
            Operation::Reset => Outcome::Reset,
            Operation::ReadId => match id_in(response@) {
                Some(id) => Outcome::Id(id),
                None => Outcome::Failed(NandError::Framing),
            },
            Operation::ReadPage { page, geometry } => if response@.len() == frame_of(
                operation,
            ).len() {
                Outcome::Page(response@.skip(page_header_len(geometry)))
            } else {
                Outcome::Failed(NandError::Framing)
            },
        },
    }
}

/// What a result says.
pub open spec fn outcome_view(result: Result<Reply, NandError>) -> Outcome {
    match result {
        Ok(Reply::Reset) => Outcome::Reset,
        Ok(Reply::Id(id)) => Outcome::Id(id),
        Ok(Reply::Page(data)) => Outcome::Page(data@),
        Err(error) => Outcome::Failed(error),
    }
}

/// The action that is due in `phase`.
pub open spec fn action_at(operation: Operation, phase: Phase) -> BusAction {
    match phase {
        Phase::Select => BusAction::AssertChipSelect,
        Phase::Exchange => if reads_back(operation) {
            BusAction::Transfer
        } else {
            BusAction::Write
        },
        Phase::Release => BusAction::ReleaseChipSelect,
        Phase::Settle => BusAction::Settle(settle_cycles(operation)),
    }
}

/// The phase that follows `phase`, or `None` where the transaction is over.
pub open spec fn next_phase(operation: Operation, phase: Phase) -> Option<Phase> {
    match phase {
        Phase::Select => Some(Phase::Exchange),
        Phase::Exchange => Some(Phase::Release),
        Phase::Release => if settle_cycles(operation) > 0 {
            Some(Phase::Settle)
        } else {
            None
        },
        Phase::Settle => None,
    }
}

/// Number of actions that are still due from `phase` on, at most.
pub open spec fn phases_left(phase: Phase) -> nat {
    match phase {
        Phase::Select => 4,
        Phase::Exchange => 3,
        Phase::Release => 2,
        Phase::Settle => 1,
    }
}

/// The actions that are due from `phase` to the end of the transaction.
pub open spec fn actions_from(operation: Operation, phase: Phase) -> Seq<BusAction>
    decreases phases_left(phase),
{
    match next_phase(operation, phase) {
        Some(next) => seq![action_at(operation, phase)] + actions_from(operation, next),
        None => seq![action_at(operation, phase)],
    }
}

/// The actions of a whole transaction.
pub open spec fn script(operation: Operation) -> Seq<BusAction> {
    match operation {
        Operation::Reset => seq![
            BusAction::AssertChipSelect,
            BusAction::Write,
            BusAction::ReleaseChipSelect,
            BusAction::Settle(RESET_SETTLE_CYCLES),
        ],
        _ => seq![
            BusAction::AssertChipSelect,
            BusAction::Transfer,
            BusAction::ReleaseChipSelect,
        ],
    }
}

/// Whether chip-select is low once `actions` have been carried out in order,
/// where `selected` says whether it was low before.
pub open spec fn selected_after(selected: bool, actions: Seq<BusAction>) -> bool
    decreases actions.len(),
{
    if actions.len() == 0 {
        selected
    } else {
        match actions.last() {
            BusAction::AssertChipSelect => true,
            BusAction::ReleaseChipSelect => false,
            _ => selected_after(selected, actions.drop_last()),
        }
    }
}

/// Whether every exchange among `actions` finds chip-select low, where
/// `selected` says whether it was low before the first action.
pub open spec fn exchanges_while_selected(selected: bool, actions: Seq<BusAction>) -> bool {
    forall|i: int|
        0 <= i < actions.len() && (actions[i] is Write || actions[i] is Transfer)
            ==> #[trigger] selected_after(selected, actions.take(i))
}

/// State of a transaction between two actions.
enum State {
    Select,
    Exchange,
    Release(Result<Reply, NandError>),
    Settle(Result<Reply, NandError>),
}

/// One command on its way through the bus.
pub struct Transaction {
    operation: Operation,
    frame: Vec<u8>,
    state: State,
}

/// What `advance` gives: the transaction with its next action due, or what
/// the transaction gave.
pub enum Step {
    Continue(Transaction),
    Finished(Result<Reply, NandError>),
}

impl Transaction {
    #[verifier::type_invariant]
    spec fn frame_matches(&self) -> bool {
        self.frame@ == frame_of(self.operation)
    }

    /// The command that this transaction carries.
    pub closed spec fn operation(&self) -> Operation {
        self.operation
    }

    /// The phase that this transaction is in.
    pub closed spec fn phase(&self) -> Phase {
        match self.state {
            State::Select => Phase::Select,
            State::Exchange => Phase::Exchange,
            State::Release(_) => Phase::Release,
            State::Settle(_) => Phase::Settle,
        }
    }

    /// What the exchange gave, once it is over.
    pub closed spec fn outcome(&self) -> Option<Outcome> {
        match self.state {
            State::Select => None,
            State::Exchange => None,
            State::Release(result) => Some(outcome_view(result)),
            State::Settle(result) => Some(outcome_view(result)),
        }
    }

    /// A transaction for `operation`, with the selection of the chip due.
    fn begin(operation: Operation) -> (transaction: Transaction)
        requires
            operation matches Operation::ReadPage { page, geometry } ==> page_fits(
                page,
                geometry.address_bytes,
            ),
        ensures
            transaction.operation() == operation,
            transaction.phase() == Phase::Select,
            transaction.outcome() is None,
    {
        let frame = build_frame(operation);
        Transaction { operation, frame, state: State::Select }
    }

    /// The action that is due.
    pub fn action(&self) -> (action: BusAction)
        ensures
            action == action_at(self.operation(), self.phase()),
    {
        match self.state {
            State::Select => BusAction::AssertChipSelect,
            State::Exchange => match self.operation {
                Operation::Reset => BusAction::Write,
                _ => BusAction::Transfer,
            },
            State::Release(_) => BusAction::ReleaseChipSelect,
            State::Settle(_) => match self.operation {
                Operation::Reset => BusAction::Settle(RESET_SETTLE_CYCLES),
                _ => BusAction::Settle(0),
            },
        }
    }

    /// The bytes that the exchange clocks out.
    pub fn frame(&self) -> (frame: &Vec<u8>)
        ensures
            frame@ == frame_of(self.operation()),
    {
        proof {
            use_type_invariant(self);
        }
        &self.frame
    }

    /// Takes note of how the due action went and moves on. Only the exchange
    /// can fail; what the other actions report is not looked at.
    pub fn advance(self, event: BusEvent) -> (step: Step)
        ensures
            match next_phase(self.operation(), self.phase()) {
                Some(next) => step matches Step::Continue(transaction)
                    && transaction.operation() == self.operation() && transaction.phase()
                    == next && transaction.outcome() == (if self.phase() is Exchange {
                    Some(outcome_of(self.operation(), event))
                } else {
                    self.outcome()
                }),
                None => step matches Step::Finished(result) && Some(outcome_view(result))
                    == self.outcome(),
            },
    {
        proof {
            use_type_invariant(&self);
        }
        let Transaction { operation, frame, state } = self;
        match state {
            State::Select => Step::Continue(
                Transaction { operation, frame, state: State::Exchange },
            ),
            State::Exchange => {
                let result = interpret(operation, event);
                Step::Continue(Transaction { operation, frame, state: State::Release(result) })
            },
            State::Release(result) => match operation {
                Operation::Reset => Step::Continue(
                    Transaction { operation, frame, state: State::Settle(result) },
                ),
                _ => Step::Finished(result),
            },
            State::Settle(result) => Step::Finished(result),
        }
    }
}

/// Byte `index` of the page address in an address field of `width` bytes.
fn address_byte_of(page: u32, width: u8, index: u8) -> (byte: u8)
    requires
        index < width,
    ensures
        byte == address_byte(page, width, index),
{
    let shift: u32 = 8 * ((width - 1 - index) as u32);
    if shift >= 32 {
        0
    } else {
        ((page >> shift) & 0xff) as u8
    }
}

/// Whether `page` can be written in an address field of `width` bytes.
pub fn page_address_fits(page: u32, width: u8) -> (fits: bool)
    ensures
        fits == page_fits(page, width),
{
    width >= 4 || (page >> (8 * (width as u32))) == 0
}

/// Builds the bytes that `operation` clocks out.
fn build_frame(operation: Operation) -> (frame: Vec<u8>)
    ensures
        frame@ == frame_of(operation),
{
    match operation {
        Operation::Reset => vec![CMD_RESET],
        Operation::ReadId => vec![CMD_READ_ID, 0u8, 0u8, 0u8, 0u8, 0u8],
        Operation::ReadPage { page, geometry } => {
            let mut frame: Vec<u8> = Vec::new();
            frame.push(CMD_READ_PAGE);
            let mut index: u8 = 0;
            while index < geometry.address_bytes
                invariant
                    index <= geometry.address_bytes,
                    frame@.len() == 1 + index,
                    forall|i: int| 0 <= i < frame@.len() ==> frame@[i] == frame_of(operation)[i],
                    operation == (Operation::ReadPage { page, geometry }),
                decreases geometry.address_bytes - index,
            {
                frame.push(address_byte_of(page, geometry.address_bytes, index));
                index += 1;
            }
            let padding: usize = geometry.dummy_bytes as usize + geometry.data_bytes as usize;
            let mut filled: usize = 0;
            while filled < padding
                invariant
                    filled <= padding,
                    padding == geometry.dummy_bytes + geometry.data_bytes,
                    frame@.len() == 1 + geometry.address_bytes + filled,
                    forall|i: int| 0 <= i < frame@.len() ==> frame@[i] == frame_of(operation)[i],
                    operation == (Operation::ReadPage { page, geometry }),
                decreases padding - filled,
            {
                frame.push(0);
                filled += 1;
            }
            frame
        },
    }
}

/// Reads the identification out of the response to an identification read.
pub fn decode_id(response: &[u8]) -> (id: Option<NandId>)
    ensures
        id == id_in(response@),
{
    if response.len() == READ_ID_LEN {
        Some(NandId { manufacturer: response[2], device: response[3] })
    } else {
        None
    }
}

/// Works out what `operation` gave from how its exchange went.
fn interpret(operation: Operation, event: BusEvent) -> (result: Result<Reply, NandError>)
    ensures
        outcome_view(result) == outcome_of(operation, event),
{
    match event {
        BusEvent::Failed => Err(NandError::Bus),
        BusEvent::Done => match operation {
            Operation::Reset => Ok(Reply::Reset),
            _ => Err(NandError::Framing),
        },
        BusEvent::Received(response) => match operation {
            Operation::Reset => Ok(Reply::Reset),
            Operation::ReadId => match decode_id(response.as_slice()) {
                Some(id) => Ok(Reply::Id(id)),
                None => Err(NandError::Framing),
            },
            Operation::ReadPage { page, geometry } => {
                let header: usize = 1 + geometry.address_bytes as usize
                    + geometry.dummy_bytes as usize;
                if response.len() == header + geometry.data_bytes as usize {
                    let data = slice_to_vec(
                        slice_subrange(response.as_slice(), header, response.len()),
                    );
                    Ok(Reply::Page(data))
                } else {
                    Err(NandError::Framing)
                }
            },
        },
    }
}

/// The driver: owner of the bus handle and of the chip-select line.
pub struct Nand<SPI, CS> {
    spi: SPI,
    cs: CS,
}

impl<SPI, CS> Nand<SPI, CS> {
    /// The bus handle that the driver owns.
    pub closed spec fn spi(&self) -> SPI {
        self.spi
    }

    /// The chip-select line that the driver owns.
    pub closed spec fn cs(&self) -> CS {
        self.cs
    }

    /// Takes the bus handle and the chip-select line. The action that comes
    /// with the driver puts the line to rest, high, before the first transaction.
    pub fn new(spi: SPI, cs: CS) -> (made: (Self, BusAction))
        ensures
            made.0.spi() == spi,
            made.0.cs() == cs,
            made.1 == BusAction::ReleaseChipSelect,
    {
        (Nand { spi, cs }, BusAction::ReleaseChipSelect)
    }

    /// The handles, for the embedding to carry out an action.
    pub fn bus(&mut self) -> (handles: (&mut SPI, &mut CS))
        ensures
            *handles.0 == old(self).spi(),
            *handles.1 == old(self).cs(),
            final(self).spi() == *final(handles.0),
            final(self).cs() == *final(handles.1),
    {
        (&mut self.spi, &mut self.cs)
    }

    /// Begins a reset of the device.
    pub fn reset(&mut self) -> (transaction: Transaction)
        ensures
            transaction.operation() == Operation::Reset,
            transaction.phase() == Phase::Select,
            transaction.outcome() is None,
            *final(self) == *old(self),
    {
        Transaction::begin(Operation::Reset)
    }

    /// Begins a read of the device's identification.
    pub fn read_id(&mut self) -> (transaction: Transaction)
        ensures
            transaction.operation() == Operation::ReadId,
            transaction.phase() == Phase::Select,
            transaction.outcome() is None,
            *final(self) == *old(self),
    {
        Transaction::begin(Operation::ReadId)
    }

    /// Begins a read of page `page`, or gives `None` where the page address
    /// does not fit the address field of `geometry`.
    pub fn read_page(&mut self, page: u32, geometry: PageGeometry) -> (transaction: Option<
        Transaction,
    >)
        ensures
            transaction is Some <==> page_fits(page, geometry.address_bytes),
            transaction matches Some(begun) ==> begun.operation() == (Operation::ReadPage {
                page,
                geometry,
            }) && begun.phase() == Phase::Select && begun.outcome() is None,
            *final(self) == *old(self),
    {
        if page_address_fits(page, geometry.address_bytes) {
            Some(Transaction::begin(Operation::ReadPage { page, geometry }))
        } else {
            None
        }
    }

    /// Gives the bus handle and the chip-select line back.
    pub fn free(self) -> (handles: (SPI, CS))
        ensures
            handles.0 == self.spi(),
            handles.1 == self.cs(),
    {
        (self.spi, self.cs)
    }
}

/// A transaction selects the chip, makes its one exchange, and releases the
/// chip; a reset then waits for the device to settle. How the exchange went
/// changes none of this.
pub proof fn lemma_transaction_follows_script(operation: Operation)
    ensures
        actions_from(operation, Phase::Select) == script(operation),
{
    reveal_with_fuel(actions_from, 5);
}

/// Chip-select rests high: a transaction that finds the line high selects the
/// chip before its exchange and leaves the line high again, whatever the
/// exchange gave.
pub proof fn lemma_chip_select_rests_high(operation: Operation)
    ensures
        exchanges_while_selected(false, script(operation)),
        !selected_after(false, script(operation)),
{
    reveal_with_fuel(selected_after, 5);
}

} // verus!
