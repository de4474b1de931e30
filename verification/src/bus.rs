//! Command/data protocol driver for the panel's serial byte transport.
//!
//! The panel controller receives one byte per bus transaction.  A dedicated
//! select line tells the controller whether the byte is a register/command
//! opcode (line low) or a data payload for the most recently selected
//! register (line high), and a chip-select line frames each byte: it is
//! asserted (driven low) after the select level is set and released (driven
//! high) once the byte has been shifted out.
//!
//! The driver here is a recorder: each call appends the framed byte to a
//! transcript, and [`LCD::actions`] renders the transcript as the exact
//! stream of line-level actions the transport executor must perform, in
//! order.  This keeps the protocol's framing rules — select level fixed
//! before chip-select asserts, level constant for the whole byte, exactly
//! one assert/release pair per byte — provable facts about data rather than
//! side effects.

use vstd::prelude::*;

verus! {

/// Electrical level of a digital signal line.
#[derive(Clone, Copy, Debug, PartialEq, Eq, Structural)]
pub enum Line {
    Low,
    High,
}

/// One unit of work for the transport executor.
#[derive(Clone, Copy, Debug, PartialEq, Eq, Structural)]
pub enum BusAction {
    /// Drive the command/data select line to the given level.
    Select(Line),
    /// Drive the chip-select line to the given level (low asserts).
    ChipSelect(Line),
    /// Shift one byte out over the serial bus, blocking until it is sent.
    Transfer(u8),
    /// Pause for at least the given number of milliseconds.
    Wait(u32),
}

/// One entry of the driver's transcript: a framed byte, or a request to
/// let the panel settle for a minimum duration.
#[derive(Clone, Copy, Debug, PartialEq, Eq, Structural)]
pub enum Step {
    /// A register/command opcode, sent with the select line low.
    Command(u8),
    /// A data payload byte, sent with the select line high.
    Data(u8),
    /// A pause of at least the given number of milliseconds.
    Settle(u32),
}

/// Select-line level carried by a transcript entry, paired with its byte.
/// Settle entries carry no byte and are absent from the record.
pub open spec fn record_of(steps: Seq<Step>) -> Seq<(Line, u8)>
    decreases steps.len(),
{
    if steps.len() == 0 {
        Seq::empty()
    } else {
        let rest = record_of(steps.drop_last());
        match steps.last() {
            Step::Command(b) => rest.push((Line::Low, b)),
            Step::Data(b) => rest.push((Line::High, b)),
            Step::Settle(_) => rest,
        }
    }
}

/// Line-level actions that realize one transcript entry.  A framed byte
/// sets the select level first, then asserts chip-select, shifts the byte,
/// and releases chip-select; a settle entry is a single wait.
pub open spec fn step_actions(s: Step) -> Seq<BusAction> {
    match s {
        Step::Command(b) => seq![
            BusAction::Select(Line::Low),
            BusAction::ChipSelect(Line::Low),
            BusAction::Transfer(b),
            BusAction::ChipSelect(Line::High),
        ],
        Step::Data(b) => seq![
            BusAction::Select(Line::High),
            BusAction::ChipSelect(Line::Low),
            BusAction::Transfer(b),
            BusAction::ChipSelect(Line::High),
        ],
        Step::Settle(ms) => seq![BusAction::Wait(ms)],
    }
}

/// Line-level actions that realize a whole transcript, in order.
pub open spec fn wire_of(steps: Seq<Step>) -> Seq<BusAction>
    decreases steps.len(),
{
    if steps.len() == 0 {
        Seq::empty()
    } else {
        wire_of(steps.drop_last()) + step_actions(steps.last())
    }
}

/// Law: a command byte travels with the select line at the command level
/// (low) for exactly that one byte.  The level is set before chip-select
/// asserts, no action touches the select line until chip-select releases,
/// and chip-select goes low then high exactly once around the transfer.
pub proof fn lemma_command_transaction_wire(b: u8)
    ensures
        step_actions(Step::Command(b)).len() == 4,
        step_actions(Step::Command(b))[0] == BusAction::Select(Line::Low),
        step_actions(Step::Command(b))[1] == BusAction::ChipSelect(Line::Low),
        step_actions(Step::Command(b))[2] == BusAction::Transfer(b),
        step_actions(Step::Command(b))[3] == BusAction::ChipSelect(Line::High),
{
}

/// Law: a data byte travels with the select line at the data level (high)
/// for the whole byte, distinguishing it from a command byte, with the same
/// framing: level set first, one chip-select assert/release pair around the
/// single transfer.
pub proof fn lemma_data_transaction_wire(b: u8)
    ensures
        step_actions(Step::Data(b)).len() == 4,
        step_actions(Step::Data(b))[0] == BusAction::Select(Line::High),
        step_actions(Step::Data(b))[1] == BusAction::ChipSelect(Line::Low),
        step_actions(Step::Data(b))[2] == BusAction::Transfer(b),
        step_actions(Step::Data(b))[3] == BusAction::ChipSelect(Line::High),
{
}

/// Law: the record and the wire stream of a transcript grow entry by
/// entry; appending one entry appends its pair (if any) and its actions.
pub proof fn lemma_transcript_push(steps: Seq<Step>, s: Step)
    ensures
        wire_of(steps.push(s)) == wire_of(steps) + step_actions(s),
        record_of(steps.push(s)) == match s {
            Step::Command(b) => record_of(steps).push((Line::Low, b)),
            Step::Data(b) => record_of(steps).push((Line::High, b)),
            Step::Settle(_) => record_of(steps),
        },
{
    assert(steps.push(s).drop_last() =~= steps);
}

/// Law: the record and the wire stream both distribute over transcript
/// concatenation, so a sequence assembled from stages is recorded and
/// realized stage by stage.
pub proof fn lemma_transcript_concat(a: Seq<Step>, b: Seq<Step>)
    ensures
        wire_of(a + b) == wire_of(a) + wire_of(b),
        record_of(a + b) == record_of(a) + record_of(b),
    decreases b.len(),
{
    if b.len() == 0 {
        assert(a + b =~= a);
        assert(record_of(a) + record_of(b) =~= record_of(a));
        assert(wire_of(a) + wire_of(b) =~= wire_of(a));
    } else {
        lemma_transcript_concat(a, b.drop_last());
        assert((a + b).drop_last() =~= a + b.drop_last());
        assert((a + b).last() == b.last());
        assert(wire_of(a) + wire_of(b.drop_last()) + step_actions(b.last()) =~= wire_of(a)
            + wire_of(b));
        match b.last() {
            Step::Command(x) => {
                assert((record_of(a) + record_of(b.drop_last())).push((Line::Low, x)) =~= record_of(
                    a,
                ) + record_of(b));
            },
            Step::Data(x) => {
                assert((record_of(a) + record_of(b.drop_last())).push((Line::High, x))
                    =~= record_of(a) + record_of(b));
            },
            Step::Settle(_) => {
                assert(record_of(a) + record_of(b.drop_last()) =~= record_of(a) + record_of(b));
            },
        }
    }
}

/// Required configuration of the underlying byte transport: the settings
/// the serial peripheral must be programmed with before the first byte.
#[derive(Clone, Copy, Debug, PartialEq, Eq, Structural)]
pub struct TransportConfig {
    /// The controller drives the clock (master mode).
    pub master: bool,
    /// Full-duplex bus wiring.
    pub full_duplex: bool,
    /// Bits per frame; the panel takes eight-bit frames.
    pub frame_bits: u8,
    /// Clock idles low.
    pub clock_idle_low: bool,
    /// Data is sampled on the first clock edge.
    pub capture_first_edge: bool,
    /// Slave select is managed in software.
    pub software_slave_select: bool,
    /// Peripheral-clock divisor that sets the baud rate.
    pub baud_divisor: u16,
}

/// The transport settings this panel requires.
pub open spec fn required_transport_config() -> TransportConfig {
    TransportConfig {
        master: true,
        full_duplex: true,
        frame_bits: 8,
        clock_idle_low: true,
        capture_first_edge: true,
        software_slave_select: true,
        baud_divisor: 16,
    }
}

/// The command/data protocol driver.
///
/// It owns the (modelled) select and chip-select lines and the byte
/// transport for the duration of every transaction, and records each
/// framed byte in a transcript.  The view of a driver is that transcript.
pub struct LCD {
    log: Vec<Step>,
}

impl View for LCD {
    type V = Seq<Step>;

    closed spec fn view(&self) -> Seq<Step> {
        self.log@
    }
}

impl LCD {
    /// Creates the driver with an empty transcript.
    pub fn init() -> (lcd: LCD)
        ensures
            lcd@ == Seq::<Step>::empty(),
    {
        LCD { log: Vec::new() }
    }

    /// The configuration the byte transport must be given before this
    /// driver's actions are executed.
    pub fn transport_config(&self) -> (c: TransportConfig)
        ensures
            c == required_transport_config(),
    {
        TransportConfig {
            master: true,
            full_duplex: true,
            frame_bits: 8,
            clock_idle_low: true,
            capture_first_edge: true,
            software_slave_select: true,
            baud_divisor: 16,
        }
    }

    /// Frames one register/command byte: select line to command level,
    /// chip-select asserted, one byte transferred, chip-select released.
    pub fn write_reg(&mut self, reg: u8)
        ensures
            final(self)@ == old(self)@.push(Step::Command(reg)),
    {
        self.log.push(Step::Command(reg));
    }

    /// Frames one data payload byte: select line to data level,
    /// chip-select asserted, one byte transferred, chip-select released.
    pub fn write_data(&mut self, data: u8)
        ensures
            final(self)@ == old(self)@.push(Step::Data(data)),
    {
        self.log.push(Step::Data(data));
    }

    /// Requests a pause of at least `ms` milliseconds before the next byte.
    pub fn settle(&mut self, ms: u32)
        ensures
            final(self)@ == old(self)@.push(Step::Settle(ms)),
    {
        self.log.push(Step::Settle(ms));
    }

    /// The transcript recorded so far.
    pub fn steps(&self) -> (r: &Vec<Step>)
        ensures
            r@ == self@,
    {
        &self.log
    }

    /// Renders the transcript as the full, ordered stream of line-level
    /// actions the transport executor must perform.
    pub fn actions(&self) -> (r: Vec<BusAction>)
        ensures
            r@ == wire_of(self@),
    {
        let mut out: Vec<BusAction> = Vec::new();
        let n = self.log.len();
        let mut i: usize = 0;
        while i < n
            invariant
                n == self.log.len(),
                i <= n,
                out@ == wire_of(self.log@.take(i as int)),
            decreases n - i,
        {
            let step = self.log[i];
            proof {
                assert(self.log@.take(i + 1 as int).drop_last() =~= self.log@.take(i as int));
                assert(self.log@.take(i + 1 as int).last() == self.log@[i as int]);
            }
            match step {
                Step::Command(b) => {
                    out.push(BusAction::Select(Line::Low));
                    out.push(BusAction::ChipSelect(Line::Low));
                    out.push(BusAction::Transfer(b));
                    out.push(BusAction::ChipSelect(Line::High));
                },
                Step::Data(b) => {
                    out.push(BusAction::Select(Line::High));
                    out.push(BusAction::ChipSelect(Line::Low));
                    out.push(BusAction::Transfer(b));
                    out.push(BusAction::ChipSelect(Line::High));
                },
                Step::Settle(ms) => {
                    out.push(BusAction::Wait(ms));
                },
            }
            proof {
                assert(out@ =~= wire_of(self.log@.take(i as int)) + step_actions(
                    self.log@[i as int],
                ));
            }
            i = i + 1;
        }
        proof {
            assert(self.log@.take(n as int) =~= self.log@);
        }
        out
    }
}

} // verus!
