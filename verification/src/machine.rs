//! The driver as a state machine: what it holds between two calls, and how
//! an event takes it to its next state and next action.
//!
//! The machine has two layers. The upper one runs the script of the
//! operation and deals in registers: it asks for a register to be read or
//! written and is told the byte read. The lower one turns each such request
//! into a bus transaction framed by chip-select, and hands the byte that
//! came back to the upper one when the transaction is over.

use crate::bits::{bit_assigned, bit_set};
use crate::bus::{Action, Error, Event, Frame, Outcome};
use crate::config::{bandwidth_hz_of, low_data_rate_of};
use crate::mode::RadioMode;
use crate::register::{Register, IRQ, LOW_DATA_RATE_BIT, RX_DONE_BIT, VERSION_CHECK};
use crate::script::{
    Decode, Instr, Policy, BOUNDED_POLL_INTERVAL, EXPLICIT_HEADER_KEEP, IMPLICIT_HEADER_KEEP,
    UNBOUNDED_POLL_INTERVAL,
};
use vstd::prelude::*;

verus! {

/// What changes in the driver once the write it waits for has gone through.
#[derive(Clone, Copy, Debug, PartialEq, Eq)]
pub enum Effect {
    /// Nothing.
    Nothing,
    /// The device is in this mode.
    Mode(RadioMode),
    /// The device uses this header format.
    Header(bool),
    /// The chip does not transmit, and that is the outcome.
    NotTransmitting,
    /// The packet drained is the outcome.
    Packet,
}

/// What the script asks for next.
#[derive(Clone, Copy, Debug, PartialEq, Eq)]
pub enum Request {
    /// Read register `reg`.
    Read { reg: u8 },
    /// Write `value` to register `reg`.
    Write { reg: u8, value: u8 },
    /// Wait this many milliseconds.
    Sleep { millis: u64 },
    /// Drive the reset line low.
    ResetLow,
    /// Drive the reset line high.
    ResetHigh,
    /// Drive chip-select high.
    Deselect,
    /// The operation is over; this is how it ended.
    Done(Result<Outcome, Error>),
    /// No operation is under way.
    Idle,
}

/// Where the bus transaction under way stands.
#[derive(Clone, Copy, Debug, PartialEq, Eq)]
pub enum Line {
    /// None is under way.
    Free,
    /// Chip-select is being driven low; `frame` goes out next, and with
    /// `read` two bytes are read back while it does.
    Selecting { frame: Frame, read: bool },
    /// The frame is on the bus.
    Transferring { read: bool },
    /// Chip-select is being driven high; `reply` is the byte read, if one
    /// was.
    Releasing { reply: Option<u8> },
}

/// What the script waits for: the request it made last, with what it has to
/// remember to go on from there.
#[derive(Clone, Copy, Debug, PartialEq, Eq)]
pub enum Await {
    /// Nothing: no operation is under way.
    Nothing,
    /// The last request of an instruction.
    Ack { effect: Effect },
    /// The value of a register that is to be written back merged; with a
    /// header format, the write selects it.
    Merge { reg: u8, keep: u8, set: u8, header: Option<bool> },
    /// The value of a register that is the outcome.
    Value { decode: Decode },
    /// Modem configuration 1, for the bandwidth.
    LdoBandwidth,
    /// Modem configuration 2, for the spreading factor.
    LdoSpreading { bandwidth: u8 },
    /// Modem configuration 3, to set the flag in.
    LdoConfig { bandwidth: u8, spreading: u8 },
    /// The mode register, to see whether the chip transmits.
    OpMode { policy: Policy },
    /// The IRQ flags of a chip that does not transmit.
    TxFlags { policy: Policy },
    /// The IRQ flags, to see whether a packet is there; `count` polls came
    /// back empty so far.
    RxFlags { budget: Option<i32>, count: i32 },
    /// The end of the pause between two polls.
    RxPause { budget: Option<i32>, count: i32 },
    /// The version register.
    Version,
    /// The number of bytes received.
    PacketSize,
    /// The address in the FIFO at which the packet starts.
    PacketAddr { size: u8 },
    /// The write that points the FIFO at the packet.
    PacketSeek { size: u8 },
    /// The byte of the packet at `index`, which lies before `size`.
    PacketByte { size: u8, index: u8 },
}

/// The driver between two calls.
pub struct Model {
    /// Carrier frequency in MHz, as last set.
    pub frequency: i64,
    /// Header format, as last selected.
    pub explicit_header: bool,
    /// The mode last written to the chip.
    pub mode: RadioMode,
    /// Whether a change of mode reasserts the header format.
    pub reassert_header: bool,
    /// The instructions of the operation under way that have not started.
    pub script: Seq<Instr>,
    /// What the script waits for.
    pub awaiting: Await,
    /// Where the bus transaction under way stands.
    pub line: Line,
    /// What the operation ends with if nothing fails.
    pub outcome: Outcome,
    /// Index of the chunk of a bulk transfer that is under way, if any.
    pub chunk: Option<usize>,
    /// The packet as far as it has been drained.
    pub packet: [u8; 255],
}

/// Whether a value of the mode register shows a chip that transmits or is
/// about to: the bits of the transmit mode, or those of the frequency
/// synthesis that precedes it, are all set.
pub open spec fn shows_transmitting(op_mode: u8) -> bool {
    op_mode & RadioMode::Tx.code() == RadioMode::Tx.code() || op_mode & RadioMode::FsTx.code()
        == RadioMode::FsTx.code()
}

/// Whether the transmit-complete flag is set in a value of the IRQ flags.
pub open spec fn shows_tx_done(flags: u8) -> bool {
    flags & IRQ::IrqTxDoneMask.mask() != 0
}

/// Whether the receive-complete flag is set in a value of the IRQ flags.
pub open spec fn shows_rx_done(flags: u8) -> bool {
    bit_set(flags, RX_DONE_BIT)
}

/// The outcome that a byte read by a `Fetch` stands for.
pub open spec fn decoded(decode: Decode, byte: u8) -> Outcome {
    match decode {
        Decode::Byte => Outcome::Byte(byte),
        Decode::HighNibble => Outcome::Byte(byte >> 4),
        Decode::Bandwidth => Outcome::Bandwidth(bandwidth_hz_of(byte >> 4)),
        Decode::TxDone => Outcome::Flag(shows_tx_done(byte)),
        Decode::Length => Outcome::Size(byte as usize),
    }
}

/// The value of modem configuration 3 with the low-data-rate flag set to
/// what the bandwidth code and the spreading factor read back call for.
pub open spec fn with_low_data_rate(config: u8, bandwidth: u8, spreading: u8) -> u8 {
    bit_assigned(
        config,
        LOW_DATA_RATE_BIT,
        low_data_rate_of(bandwidth_hz_of(bandwidth) as int, spreading as nat),
    )
}

/// The error an operation ends with: within a chunk of a bulk transfer, the
/// chunk is named.
pub open spec fn reported(error: Error, chunk: Option<usize>) -> Error {
    match chunk {
        Some(index) => Error::Bulk {
            chunk: index,
            contention: error == Error::AlreadyTransmitting,
        },
        None => error,
    }
}

/// The bits of modem configuration 1 that selecting a header format keeps.
pub open spec fn header_keep(explicit: bool) -> u8 {
    if explicit {
        EXPLICIT_HEADER_KEEP
    } else {
        IMPLICIT_HEADER_KEEP
    }
}

impl Model {
    /// A handle before anything has been done with it: at a carrier of
    /// `frequency` MHz, with the implicit header format, asleep.
    pub open spec fn fresh(frequency: i64, reassert_header: bool) -> Model {
        Model {
            frequency,
            explicit_header: false,
            mode: RadioMode::Sleep,
            reassert_header,
            script: Seq::empty(),
            awaiting: Await::Nothing,
            line: Line::Free,
            outcome: Outcome::Unit,
            chunk: None,
            packet: blank_packet(),
        }
    }

    /// The model with nothing under way.
    pub open spec fn at_rest(self) -> Model {
        Model {
            script: Seq::empty(),
            awaiting: Await::Nothing,
            line: Line::Free,
            chunk: None,
            ..self
        }
    }

    /// Whether no operation is under way.
    pub open spec fn idle(self) -> bool {
        self.awaiting == Await::Nothing
    }

    /// The operation under way fails.
    pub open spec fn fail(self, error: Error) -> (Model, Request) {
        (self.at_rest(), Request::Done(Err(reported(error, self.chunk))))
    }

    /// The script waits for `awaiting` after making `request`.
    pub open spec fn wait(self, awaiting: Await, request: Request) -> (Model, Request) {
        (Model { awaiting, ..self }, request)
    }

    /// The model once `effect` has taken place.
    pub open spec fn with_effect(self, effect: Effect) -> Model {
        match effect {
            Effect::Nothing => self,
            Effect::Mode(mode) => Model { mode, ..self },
            Effect::Header(explicit) => Model { explicit_header: explicit, ..self },
            Effect::NotTransmitting => Model { outcome: Outcome::Flag(false), ..self },
            Effect::Packet => Model { outcome: Outcome::Packet(self.packet), ..self },
        }
    }

    /// The next instruction starts; without one, the operation ends well.
    pub open spec fn advance(self) -> (Model, Request) {
        if self.script.len() == 0 {
            (self.at_rest(), Request::Done(Ok(self.outcome)))
        } else {
            let next = Model { script: self.script.skip(1), ..self };
            match self.script[0] {
                Instr::Write { reg, value } => next.wait(
                    Await::Ack { effect: Effect::Nothing },
                    Request::Write { reg, value },
                ),
                Instr::Enter { mode } => next.wait(
                    Await::Ack { effect: Effect::Mode(mode) },
                    Request::Write {
                        reg: Register::RegOpMode.address(),
                        value: mode.register_value(),
                    },
                ),
                Instr::Update { reg, keep, set } => next.wait(
                    Await::Merge { reg, keep, set, header: None },
                    Request::Read { reg },
                ),
                Instr::Header { explicit } => next.wait(
                    Await::Merge {
                        reg: Register::RegModemConfig1.address(),
                        keep: header_keep(explicit),
                        set: 0,
                        header: Some(explicit),
                    },
                    Request::Read { reg: Register::RegModemConfig1.address() },
                ),
                Instr::Fetch { reg, decode } => next.wait(
                    Await::Value { decode },
                    Request::Read { reg },
                ),
                Instr::LowDataRate => next.wait(
                    Await::LdoBandwidth,
                    Request::Read { reg: Register::RegModemConfig1.address() },
                ),
                Instr::Transmitting { policy } => {
                    let marked = match policy {
                        Policy::Refuse { chunk } => Model { chunk, ..next },
                        _ => next,
                    };
                    marked.wait(
                        Await::OpMode { policy },
                        Request::Read { reg: Register::RegOpMode.address() },
                    )
                },
                Instr::AwaitPacket { budget } => next.wait(
                    Await::RxFlags { budget, count: 0 },
                    Request::Read { reg: Register::RegIrqFlags.address() },
                ),
                Instr::Version => next.wait(
                    Await::Version,
                    Request::Read { reg: Register::RegVersion.address() },
                ),
                Instr::Drain => Model { packet: blank_packet(), ..next }.wait(
                    Await::PacketSize,
                    Request::Read { reg: Register::RegRxNbBytes.address() },
                ),
                Instr::Pause { millis } => next.wait(
                    Await::Ack { effect: Effect::Nothing },
                    Request::Sleep { millis },
                ),
                Instr::ResetLow => next.wait(
                    Await::Ack { effect: Effect::Nothing },
                    Request::ResetLow,
                ),
                Instr::ResetHigh => next.wait(
                    Await::Ack { effect: Effect::Nothing },
                    Request::ResetHigh,
                ),
                Instr::Deselect => next.wait(
                    Await::Ack { effect: Effect::Nothing },
                    Request::Deselect,
                ),
            }
        }
    }

    /// The script of a new operation starts: whatever was under way is
    /// dropped, `script` is what is to be done and `outcome` what it ends
    /// with unless an instruction says otherwise.
    pub open spec fn start(self, script: Seq<Instr>, outcome: Outcome) -> (Model, Request) {
        Model {
            script,
            outcome,
            awaiting: Await::Nothing,
            line: Line::Free,
            chunk: None,
            ..self
        }.advance()
    }

    /// The chip was found not to transmit.
    pub open spec fn found_idle(self, policy: Policy) -> (Model, Request) {
        match policy {
            Policy::Report => self.with_effect(Effect::NotTransmitting).advance(),
            _ => self.advance(),
        }
    }

    /// The mode register came back.
    pub open spec fn on_op_mode(self, policy: Policy, op_mode: u8) -> (Model, Request) {
        if shows_transmitting(op_mode) {
            match policy {
                Policy::Report => Model { outcome: Outcome::Flag(true), ..self }.advance(),
                Policy::Refuse { .. } => self.fail(Error::AlreadyTransmitting),
                Policy::Wait => self.wait(
                    Await::OpMode { policy },
                    Request::Read { reg: Register::RegOpMode.address() },
                ),
            }
        } else {
            self.wait(
                Await::TxFlags { policy },
                Request::Read { reg: Register::RegIrqFlags.address() },
            )
        }
    }

    /// The IRQ flags of a chip that does not transmit came back.
    pub open spec fn on_tx_flags(self, policy: Policy, flags: u8) -> (Model, Request) {
        if shows_tx_done(flags) {
            self.wait(
                Await::Ack {
                    effect: match policy {
                        Policy::Report => Effect::NotTransmitting,
                        _ => Effect::Nothing,
                    },
                },
                Request::Write {
                    reg: Register::RegIrqFlags.address(),
                    value: IRQ::IrqTxDoneMask.mask(),
                },
            )
        } else {
            self.found_idle(policy)
        }
    }

    /// The IRQ flags came back while a packet is awaited.
    pub open spec fn on_rx_flags(self, budget: Option<i32>, count: i32, flags: u8) -> (
        Model,
        Request,
    ) {
        if shows_rx_done(flags) {
            self.advance()
        } else {
            match budget {
                Some(limit) => if count >= limit {
                    self.fail(Error::PollTimeout)
                } else {
                    self.wait(
                        Await::RxPause { budget, count: (count + 1) as i32 },
                        Request::Sleep { millis: BOUNDED_POLL_INTERVAL },
                    )
                },
                None => self.wait(
                    Await::RxPause { budget, count },
                    Request::Sleep { millis: UNBOUNDED_POLL_INTERVAL },
                ),
            }
        }
    }

    /// The next byte of the packet is asked for, or, past its end, the FIFO
    /// pointer is reset.
    pub open spec fn drain_from(self, size: u8, index: u8) -> (Model, Request) {
        if index < size {
            self.wait(
                Await::PacketByte { size, index },
                Request::Read { reg: Register::RegFifo.address() },
            )
        } else {
            self.wait(
                Await::Ack { effect: Effect::Packet },
                Request::Write { reg: Register::RegFifoAddrPtr.address(), value: 0 },
            )
        }
    }

    /// A byte came back.
    pub open spec fn on_byte(self, byte: u8) -> (Model, Request) {
        match self.awaiting {
            Await::Nothing => (self, Request::Idle),
            Await::Ack { effect } => self.with_effect(effect).advance(),
            Await::Merge { reg, keep, set, header } => self.wait(
                Await::Ack {
                    effect: match header {
                        Some(explicit) => Effect::Header(explicit),
                        None => Effect::Nothing,
                    },
                },
                Request::Write { reg, value: (byte & keep) | set },
            ),
            Await::Value { decode } => Model { outcome: decoded(decode, byte), ..self }.advance(),
            Await::LdoBandwidth => self.wait(
                Await::LdoSpreading { bandwidth: byte >> 4 },
                Request::Read { reg: Register::RegModemConfig2.address() },
            ),
            Await::LdoSpreading { bandwidth } => self.wait(
                Await::LdoConfig { bandwidth, spreading: byte >> 4 },
                Request::Read { reg: Register::RegModemConfig3.address() },
            ),
            Await::LdoConfig { bandwidth, spreading } => self.wait(
                Await::Ack { effect: Effect::Nothing },
                Request::Write {
                    reg: Register::RegModemConfig3.address(),
                    value: with_low_data_rate(byte, bandwidth, spreading),
                },
            ),
            Await::OpMode { policy } => self.on_op_mode(policy, byte),
            Await::TxFlags { policy } => self.on_tx_flags(policy, byte),
            Await::RxFlags { budget, count } => self.on_rx_flags(budget, count, byte),
            Await::RxPause { budget, count } => self.wait(
                Await::RxFlags { budget, count },
                Request::Read { reg: Register::RegIrqFlags.address() },
            ),
            Await::Version => if byte == VERSION_CHECK {
                self.advance()
            } else {
                self.fail(Error::VersionMismatch)
            },
            Await::PacketSize => self.wait(
                Await::PacketAddr { size: byte },
                Request::Read { reg: Register::RegFifoRxCurrentAddr.address() },
            ),
            Await::PacketAddr { size } => self.wait(
                Await::PacketSeek { size },
                Request::Write { reg: Register::RegFifoAddrPtr.address(), value: byte },
            ),
            Await::PacketSeek { size } => self.drain_from(size, 0),
            Await::PacketByte { size, index } => if index < size {
                Model { packet: packet_with(self.packet, index, byte), ..self }.drain_from(
                    size,
                    (index + 1) as u8,
                )
            } else {
                self.fail(Error::Transport)
            },
        }
    }

    /// The request made last was carried out, without a byte to show.
    pub open spec fn on_completion(self) -> (Model, Request) {
        match self.awaiting {
            Await::Nothing => (self, Request::Idle),
            Await::Ack { effect } => self.with_effect(effect).advance(),
            Await::RxPause { budget, count } => self.wait(
                Await::RxFlags { budget, count },
                Request::Read { reg: Register::RegIrqFlags.address() },
            ),
            Await::PacketSeek { size } => self.drain_from(size, 0),
            _ => self.fail(Error::Transport),
        }
    }

    /// The request made last was carried out. A byte goes to whatever waits
    /// for one, and counts for nothing where nothing does; where a byte is
    /// waited for and none came, the bus has failed.
    pub open spec fn deliver(self, reply: Option<u8>) -> (Model, Request) {
        match reply {
            Some(byte) => self.on_byte(byte),
            None => self.on_completion(),
        }
    }

    /// The action that a request of the script starts with. Reading or
    /// writing a register is a bus transaction, which starts with chip-select
    /// driven low; everything else is an action by itself.
    pub open spec fn issue(self, request: Request) -> (Model, Action) {
        match request {
            Request::Read { reg } => (
                Model { line: Line::Selecting { frame: Frame::reading(reg), read: true }, ..self },
                Action::SelectLow,
            ),
            Request::Write { reg, value } => (
                Model {
                    line: Line::Selecting { frame: Frame::writing(reg, value), read: false },
                    ..self
                },
                Action::SelectLow,
            ),
            Request::Sleep { millis } => (self, Action::Sleep { millis }),
            Request::ResetLow => (self, Action::ResetLow),
            Request::ResetHigh => (self, Action::ResetHigh),
            Request::Deselect => (self, Action::SelectHigh),
            Request::Done(result) => (self, Action::Done(result)),
            Request::Idle => (self, Action::Idle),
        }
    }

    /// A new operation starts and hands out its first action.
    pub open spec fn begin(self, script: Seq<Instr>, outcome: Outcome) -> (Model, Action) {
        let (next, request) = self.start(script, outcome);
        next.issue(request)
    }

    /// The operation under way ends with a failure of the bus.
    pub open spec fn give_up(self) -> (Model, Action) {
        let (next, request) = self.fail(Error::Transport);
        next.issue(request)
    }

    /// The script goes on from the request made last.
    pub open spec fn proceed(self, reply: Option<u8>) -> (Model, Action) {
        let (next, request) = (Model { line: Line::Free, ..self }).deliver(reply);
        next.issue(request)
    }

    /// The step of the machine: from the state and the event that answers
    /// the action handed out last, to the next state and the next action.
    ///
    /// A failure ends the operation at once. Within a bus transaction,
    /// chip-select driven low is followed by the frame, and the frame by
    /// chip-select driven high, after which the script goes on with the byte
    /// that was read, if any; a frame that was to read bytes back and is
    /// answered without them is a failure of the bus. Outside a transaction
    /// the script goes on at once.
    pub open spec fn resume(self, event: Event) -> (Model, Action) {
        if self.idle() {
            (self, Action::Idle)
        } else {
            match event {
                Event::Failed => self.give_up(),
                _ => match self.line {
                    Line::Free => self.proceed(event.byte()),
                    Line::Selecting { frame, read } => (
                        Model { line: Line::Transferring { read }, ..self },
                        if read {
                            Action::Exchange { frame }
                        } else {
                            Action::Send { frame }
                        },
                    ),
                    Line::Transferring { read } => if read && event.byte() is None {
                        self.give_up()
                    } else {
                        (
                            Model {
                                line: Line::Releasing { reply: if read {
                                    event.byte()
                                } else {
                                    None
                                } },
                                ..self
                            },
                            Action::SelectHigh,
                        )
                    },
                    Line::Releasing { reply } => self.proceed(reply),
                },
            }
        }
    }
}

/// The packet before anything has been drained: all zero.
pub open spec fn blank_packet() -> [u8; 255] {
    vstd::array::spec_array_fill_for_copy_type::<u8, 255>(0u8)
}

/// The packet with `byte` at `index`.
pub open spec fn packet_with(packet: [u8; 255], index: u8, byte: u8) -> [u8; 255] {
    vstd::array::spec_array_update(packet, index as int, byte)
}

} // verus!
