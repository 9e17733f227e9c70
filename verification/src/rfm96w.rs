//! The driver: a handle on one radio, the operations it offers and the
//! machine that carries them out one action at a time.
//!
//! An operation is started by the method named after it, which hands out the
//! first action. The caller carries each action out and passes what happened
//! to [`LoRa::resume`], which hands out the next, until the action is
//! `Action::Done`.

use crate::bits::{get_bit, set_bit};
use crate::bus::{Action, Error, Event, Frame, Outcome};
use crate::config::{bandwidth_hz, low_data_rate, ocp_value, TX_CHUNK_SIZE};
use crate::machine::{Await, Effect, Line, Model, Request};
use crate::mode::RadioMode;
use crate::register::{Register, IRQ, LOW_DATA_RATE_BIT, RX_DONE_BIT, VERSION_CHECK};
use crate::script::{
    bring_up_script, bulk_script, clear_irq_script, coding_rate_script, crc_script,
    frequency_script, invert_iq_script, mode_script, ocp_script, poll_irq_script,
    preamble_script, push_bring_up, push_chunks, push_clear_irq, push_coding_rate, push_crc,
    push_frequency, push_invert_iq, push_mode, push_preamble, push_signal_bandwidth,
    push_spreading_factor, push_transmit, push_tx_power, read_packet_script,
    read_register_script, signal_bandwidth_script, spreading_factor_script, transmit_script,
    tx_power_script, write_register_script, Decode, Instr, Policy, BOUNDED_POLL_INTERVAL,
    EXPLICIT_HEADER_KEEP, IMPLICIT_HEADER_KEEP, UNBOUNDED_POLL_INTERVAL,
};
use vstd::prelude::*;

verus! {

/// A handle on one radio: its frequency, header format and mode as the
/// driver last set them, and the operation under way.
pub struct LoRa {
    frequency: i64,
    explicit_header: bool,
    mode: RadioMode,
    reassert_header: bool,
    script: Vec<Instr>,
    cursor: usize,
    awaiting: Await,
    line: Line,
    outcome: Outcome,
    chunk: Option<usize>,
    packet: [u8; 255],
}

impl View for LoRa {
    type V = Model;

    closed spec fn view(&self) -> Model {
        Model {
            frequency: self.frequency,
            explicit_header: self.explicit_header,
            mode: self.mode,
            reassert_header: self.reassert_header,
            script: if self.cursor <= self.script@.len() {
                self.script@.skip(self.cursor as int)
            } else {
                Seq::empty()
            },
            awaiting: self.awaiting,
            line: self.line,
            outcome: self.outcome,
            chunk: self.chunk,
            packet: self.packet,
        }
    }
}

impl LoRa {
    // -----------------------------------------------------------------------
    // The machine

    /// Drops whatever is under way.
    fn rest(&mut self)
        ensures
            final(self)@ == old(self)@.at_rest(),
    {
        self.awaiting = Await::Nothing;
        self.line = Line::Free;
        self.chunk = None;
        self.cursor = 0;
        self.script = Vec::new();
        assert(self@.script =~= Seq::<Instr>::empty());
    }

    /// Ends the operation under way with an error.
    fn fail(&mut self, error: Error) -> (request: Request)
        ensures
            (final(self)@, request) == old(self)@.fail(error),
    {
        let report: Error = match self.chunk {
            Some(index) => Error::Bulk {
                chunk: index,
                contention: match error {
                    Error::AlreadyTransmitting => true,
                    _ => false,
                },
            },
            None => error,
        };
        self.rest();
        Request::Done(Err(report))
    }

    /// Notes what the script waits for after making `request`.
    fn wait(&mut self, awaiting: Await, request: Request) -> (out: Request)
        ensures
            (final(self)@, out) == old(self)@.wait(awaiting, request),
    {
        self.awaiting = awaiting;
        request
    }

    /// Takes note of a write that has gone through.
    fn apply(&mut self, effect: Effect)
        ensures
            final(self)@ == old(self)@.with_effect(effect),
    {
        match effect {
            Effect::Nothing => {},
            Effect::Mode(mode) => {
                self.mode = mode;
            },
            Effect::Header(explicit) => {
                self.explicit_header = explicit;
            },
            Effect::NotTransmitting => {
                self.outcome = Outcome::Flag(false);
            },
            Effect::Packet => {
                self.outcome = Outcome::Packet(self.packet);
            },
        }
    }

    /// Starts the next instruction of the script, or ends the operation.
    fn advance(&mut self) -> (request: Request)
        ensures
            (final(self)@, request) == old(self)@.advance(),
    {
        if self.cursor >= self.script.len() {
            let outcome: Outcome = self.outcome;
            self.rest();
            return Request::Done(Ok(outcome));
        }
        let instr: Instr = self.script[self.cursor];
        self.cursor = self.cursor + 1;
        assert(self@.script =~= old(self)@.script.skip(1));
        let ghost next = self@;
        match instr {
            Instr::Write { reg, value } => self.wait(
                Await::Ack { effect: Effect::Nothing },
                Request::Write { reg, value },
            ),
            Instr::Enter { mode } => self.wait(
                Await::Ack { effect: Effect::Mode(mode) },
                Request::Write { reg: Register::RegOpMode.addr(), value: mode.op_mode() },
            ),
            Instr::Update { reg, keep, set } => self.wait(
                Await::Merge { reg, keep, set, header: None },
                Request::Read { reg },
            ),
            Instr::Header { explicit } => self.wait(
                Await::Merge {
                    reg: Register::RegModemConfig1.addr(),
                    keep: if explicit {
                        EXPLICIT_HEADER_KEEP
                    } else {
                        IMPLICIT_HEADER_KEEP
                    },
                    set: 0,
                    header: Some(explicit),
                },
                Request::Read { reg: Register::RegModemConfig1.addr() },
            ),
            Instr::Fetch { reg, decode } => self.wait(
                Await::Value { decode },
                Request::Read { reg },
            ),
            Instr::LowDataRate => self.wait(
                Await::LdoBandwidth,
                Request::Read { reg: Register::RegModemConfig1.addr() },
            ),
            Instr::Transmitting { policy } => {
                match policy {
                    Policy::Refuse { chunk } => {
                        self.chunk = chunk;
                    },
                    _ => {},
                }
                self.wait(
                    Await::OpMode { policy },
                    Request::Read { reg: Register::RegOpMode.addr() },
                )
            },
            Instr::AwaitPacket { budget } => self.wait(
                Await::RxFlags { budget, count: 0 },
                Request::Read { reg: Register::RegIrqFlags.addr() },
            ),
            Instr::Version => self.wait(
                Await::Version,
                Request::Read { reg: Register::RegVersion.addr() },
            ),
            Instr::Drain => {
                self.packet = [0u8;255];
                self.wait(
                    Await::PacketSize,
                    Request::Read { reg: Register::RegRxNbBytes.addr() },
                )
            },
            Instr::Pause { millis } => self.wait(
                Await::Ack { effect: Effect::Nothing },
                Request::Sleep { millis },
            ),
            Instr::ResetLow => self.wait(Await::Ack { effect: Effect::Nothing }, Request::ResetLow),
            Instr::ResetHigh => self.wait(
                Await::Ack { effect: Effect::Nothing },
                Request::ResetHigh,
            ),
            Instr::Deselect => self.wait(
                Await::Ack { effect: Effect::Nothing },
                Request::Deselect,
            ),
        }
    }

    /// Starts the script of a new operation.
    fn start(&mut self, script: Vec<Instr>, outcome: Outcome) -> (request: Request)
        ensures
            (final(self)@, request) == old(self)@.start(script@, outcome),
    {
        self.awaiting = Await::Nothing;
        self.line = Line::Free;
        self.chunk = None;
        self.outcome = outcome;
        self.cursor = 0;
        self.script = script;
        assert(self@.script =~= script@);
        self.advance()
    }

    /// Goes on after the chip was found not to transmit.
    fn found_idle(&mut self, policy: Policy) -> (request: Request)
        ensures
            (final(self)@, request) == old(self)@.found_idle(policy),
    {
        match policy {
            Policy::Report => {
                self.apply(Effect::NotTransmitting);
            },
            _ => {},
        }
        self.advance()
    }

    /// Takes the value of the mode register.
    fn on_op_mode(&mut self, policy: Policy, op_mode: u8) -> (request: Request)
        ensures
            (final(self)@, request) == old(self)@.on_op_mode(policy, op_mode),
    {
        let tx: u8 = RadioMode::Tx.addr();
        let fs_tx: u8 = RadioMode::FsTx.addr();
        if (op_mode & tx) == tx || (op_mode & fs_tx) == fs_tx {
            match policy {
                Policy::Report => {
                    self.outcome = Outcome::Flag(true);
                    self.advance()
                },
                Policy::Refuse { .. } => self.fail(Error::AlreadyTransmitting),
                Policy::Wait => self.wait(
                    Await::OpMode { policy },
                    Request::Read { reg: Register::RegOpMode.addr() },
                ),
            }
        } else {
            self.wait(
                Await::TxFlags { policy },
                Request::Read { reg: Register::RegIrqFlags.addr() },
            )
        }
    }

    /// Takes the IRQ flags of a chip that does not transmit.
    fn on_tx_flags(&mut self, policy: Policy, flags: u8) -> (request: Request)
        ensures
            (final(self)@, request) == old(self)@.on_tx_flags(policy, flags),
    {
        let mask: u8 = IRQ::IrqTxDoneMask.addr();
        if (flags & mask) != 0 {
            let effect: Effect = match policy {
                Policy::Report => Effect::NotTransmitting,
                _ => Effect::Nothing,
            };
            self.wait(
                Await::Ack { effect },
                Request::Write { reg: Register::RegIrqFlags.addr(), value: mask },
            )
        } else {
            self.found_idle(policy)
        }
    }

    /// Takes the IRQ flags while a packet is awaited.
    fn on_rx_flags(&mut self, budget: Option<i32>, count: i32, flags: u8) -> (request: Request)
        ensures
            (final(self)@, request) == old(self)@.on_rx_flags(budget, count, flags),
    {
        if get_bit(flags, RX_DONE_BIT) {
            self.advance()
        } else {
            match budget {
                Some(limit) => {
                    if count >= limit {
                        self.fail(Error::PollTimeout)
                    } else {
                        self.wait(
                            Await::RxPause { budget, count: count + 1 },
                            Request::Sleep { millis: BOUNDED_POLL_INTERVAL },
                        )
                    }
                },
                None => self.wait(
                    Await::RxPause { budget, count },
                    Request::Sleep { millis: UNBOUNDED_POLL_INTERVAL },
                ),
            }
        }
    }

    /// Asks for the next byte of the packet or, past its end, resets the
    /// FIFO pointer.
    fn drain_from(&mut self, size: u8, index: u8) -> (request: Request)
        ensures
            (final(self)@, request) == old(self)@.drain_from(size, index),
    {
        if index < size {
            self.wait(
                Await::PacketByte { size, index },
                Request::Read { reg: Register::RegFifo.addr() },
            )
        } else {
            self.wait(
                Await::Ack { effect: Effect::Packet },
                Request::Write { reg: Register::RegFifoAddrPtr.addr(), value: 0 },
            )
        }
    }

    /// Takes a byte that was read.
    fn on_byte(&mut self, byte: u8) -> (request: Request)
        ensures
            (final(self)@, request) == old(self)@.on_byte(byte),
    {
        let awaiting: Await = self.awaiting;
        match awaiting {
            Await::Nothing => Request::Idle,
            Await::Ack { effect } => {
                self.apply(effect);
                self.advance()
            },
            Await::Merge { reg, keep, set, header } => {
                let effect: Effect = match header {
                    Some(explicit) => Effect::Header(explicit),
                    None => Effect::Nothing,
                };
                self.wait(
                    Await::Ack { effect },
                    Request::Write { reg, value: (byte & keep) | set },
                )
            },
            Await::Value { decode } => {
                self.outcome = match decode {
                    Decode::Byte => Outcome::Byte(byte),
                    Decode::HighNibble => Outcome::Byte(byte >> 4),
                    Decode::Bandwidth => Outcome::Bandwidth(bandwidth_hz(byte >> 4)),
                    Decode::TxDone => Outcome::Flag((byte & IRQ::IrqTxDoneMask.addr()) != 0),
                    Decode::Length => Outcome::Size(byte as usize),
                };
                self.advance()
            },
            Await::LdoBandwidth => self.wait(
                Await::LdoSpreading { bandwidth: byte >> 4 },
                Request::Read { reg: Register::RegModemConfig2.addr() },
            ),
            Await::LdoSpreading { bandwidth } => self.wait(
                Await::LdoConfig { bandwidth, spreading: byte >> 4 },
                Request::Read { reg: Register::RegModemConfig3.addr() },
            ),
            Await::LdoConfig { bandwidth, spreading } => {
                let on: bool = low_data_rate(bandwidth_hz(bandwidth), spreading);
                self.wait(
                    Await::Ack { effect: Effect::Nothing },
                    Request::Write {
                        reg: Register::RegModemConfig3.addr(),
                        value: set_bit(byte, LOW_DATA_RATE_BIT, on),
                    },
                )
            },
            Await::OpMode { policy } => self.on_op_mode(policy, byte),
            Await::TxFlags { policy } => self.on_tx_flags(policy, byte),
            Await::RxFlags { budget, count } => self.on_rx_flags(budget, count, byte),
            Await::RxPause { budget, count } => self.wait(
                Await::RxFlags { budget, count },
                Request::Read { reg: Register::RegIrqFlags.addr() },
            ),
            Await::Version => {
                if byte == VERSION_CHECK {
                    self.advance()
                } else {
                    self.fail(Error::VersionMismatch)
                }
            },
            Await::PacketSize => self.wait(
                Await::PacketAddr { size: byte },
                Request::Read { reg: Register::RegFifoRxCurrentAddr.addr() },
            ),
            Await::PacketAddr { size } => self.wait(
                Await::PacketSeek { size },
                Request::Write { reg: Register::RegFifoAddrPtr.addr(), value: byte },
            ),
            Await::PacketSeek { size } => self.drain_from(size, 0),
            Await::PacketByte { size, index } => {
                if index < size {
                    self.packet[index as usize] = byte;
                    self.drain_from(size, index + 1)
                } else {
                    self.fail(Error::Transport)
                }
            },
        }
    }

    /// Takes note that the request made last was carried out.
    fn on_completion(&mut self) -> (request: Request)
        ensures
            (final(self)@, request) == old(self)@.on_completion(),
    {
        let awaiting: Await = self.awaiting;
        match awaiting {
            Await::Nothing => Request::Idle,
            Await::Ack { effect } => {
                self.apply(effect);
                self.advance()
            },
            Await::RxPause { budget, count } => self.wait(
                Await::RxFlags { budget, count },
                Request::Read { reg: Register::RegIrqFlags.addr() },
            ),
            Await::PacketSeek { size } => self.drain_from(size, 0),
            _ => self.fail(Error::Transport),
        }
    }

    /// Hands the answer to the request made last to the script.
    fn deliver(&mut self, reply: Option<u8>) -> (request: Request)
        ensures
            (final(self)@, request) == old(self)@.deliver(reply),
    {
        match reply {
            Some(byte) => self.on_byte(byte),
            None => self.on_completion(),
        }
    }

    /// Turns a request of the script into the action it starts with.
    fn issue(&mut self, request: Request) -> (action: Action)
        ensures
            (final(self)@, action) == old(self)@.issue(request),
    {
        match request {
            Request::Read { reg } => {
                self.line = Line::Selecting { frame: Frame::read(reg), read: true };
                Action::SelectLow
            },
            Request::Write { reg, value } => {
                self.line = Line::Selecting { frame: Frame::write(reg, value), read: false };
                Action::SelectLow
            },
            Request::Sleep { millis } => Action::Sleep { millis },
            Request::ResetLow => Action::ResetLow,
            Request::ResetHigh => Action::ResetHigh,
            Request::Deselect => Action::SelectHigh,
            Request::Done(result) => Action::Done(result),
            Request::Idle => Action::Idle,
        }
    }

    /// Starts a new operation and hands out its first action.
    fn begin(&mut self, script: Vec<Instr>, outcome: Outcome) -> (action: Action)
        ensures
            (final(self)@, action) == old(self)@.begin(script@, outcome),
    {
        let request: Request = self.start(script, outcome);
        self.issue(request)
    }

    /// Ends the operation under way with a failure of the bus.
    fn give_up(&mut self) -> (action: Action)
        ensures
            (final(self)@, action) == old(self)@.give_up(),
    {
        let request: Request = self.fail(Error::Transport);
        self.issue(request)
    }

    /// Lets the script go on from the request made last.
    fn proceed(&mut self, reply: Option<u8>) -> (action: Action)
        ensures
            (final(self)@, action) == old(self)@.proceed(reply),
    {
        self.line = Line::Free;
        let request: Request = self.deliver(reply);
        self.issue(request)
    }

    /// Takes the event that answers the action handed out last and hands out
    /// the next action. Without an operation under way the action is
    /// `Action::Idle`, whatever the event.
    pub fn resume(&mut self, event: Event) -> (action: Action)
        ensures
            (final(self)@, action) == old(self)@.resume(event),
    {
        match self.awaiting {
            Await::Nothing => {
                return Action::Idle;
            },
            _ => {},
        }
        let reply: Option<u8> = match event {
            Event::Failed => {
                return self.give_up();
            },
            Event::Reply(frame) => Some(frame.data),
            Event::Completed => None,
        };
        let line: Line = self.line;
        match line {
            Line::Free => self.proceed(reply),
            Line::Selecting { frame, read } => {
                self.line = Line::Transferring { read };
                if read {
                    Action::Exchange { frame }
                } else {
                    Action::Send { frame }
                }
            },
            Line::Transferring { read } => {
                if read {
                    match reply {
                        Some(byte) => {
                            self.line = Line::Releasing { reply: Some(byte) };
                            Action::SelectHigh
                        },
                        None => self.give_up(),
                    }
                } else {
                    self.line = Line::Releasing { reply: None };
                    Action::SelectHigh
                }
            },
            Line::Releasing { reply: held } => self.proceed(held),
        }
    }

    // -----------------------------------------------------------------------
    // What the handle knows

    /// The mode last written to the chip.
    pub fn mode(&self) -> (mode: RadioMode)
        ensures
            mode == self@.mode,
    {
        self.mode
    }

    /// The carrier frequency in MHz, as last set.
    pub fn frequency(&self) -> (frequency: i64)
        ensures
            frequency == self@.frequency,
    {
        self.frequency
    }

    /// Whether the explicit header format is selected.
    pub fn explicit_header(&self) -> (explicit: bool)
        ensures
            explicit == self@.explicit_header,
    {
        self.explicit_header
    }

    /// Whether a change of mode reasserts the header format.
    pub fn reasserts_header(&self) -> (reassert: bool)
        ensures
            reassert == self@.reassert_header,
    {
        self.reassert_header
    }

    /// Whether no operation is under way.
    pub fn is_idle(&self) -> (idle: bool)
        ensures
            idle == self@.idle(),
    {
        match self.awaiting {
            Await::Nothing => true,
            _ => false,
        }
    }

    // -----------------------------------------------------------------------
    // The operations

    /// Starts bringing a chip up at a carrier of `frequency` MHz. The handle
    /// is handed over by [`Bringup::resume`] once the chip has answered with
    /// the right version and taken the initial configuration.
    pub fn new(frequency: i64, reassert_header: bool) -> (start: (Bringup, Action))
        ensures
            (start.0@, start.1) == Model::fresh(frequency, reassert_header).begin(
                bring_up_script(frequency as int, reassert_header),
                Outcome::Unit,
            ),
    {
        let mut device = LoRa {
            frequency,
            explicit_header: false,
            mode: RadioMode::Sleep,
            reassert_header,
            script: Vec::new(),
            cursor: 0,
            awaiting: Await::Nothing,
            line: Line::Free,
            outcome: Outcome::Unit,
            chunk: None,
            packet: [0u8;255],
        };
        assert(device@.script =~= Seq::<Instr>::empty());
        let mut script: Vec<Instr> = Vec::new();
        push_bring_up(&mut script, frequency, reassert_header);
        assert(script@ =~= bring_up_script(frequency as int, reassert_header));
        let action: Action = device.begin(script, Outcome::Unit);
        (Bringup { device }, action)
    }

    /// Starts reading register `reg`. Ends with the byte read.
    pub fn read_register(&mut self, reg: u8) -> (action: Action)
        ensures
            (final(self)@, action) == old(self)@.begin(read_register_script(reg), Outcome::Unit),
    {
        let script: Vec<Instr> = vec![Instr::Fetch { reg, decode: Decode::Byte }];
        assert(script@ =~= read_register_script(reg));
        self.begin(script, Outcome::Unit)
    }

    /// Starts writing `byte` to register `reg`.
    pub fn write_register(&mut self, reg: u8, byte: u8) -> (action: Action)
        ensures
            (final(self)@, action) == old(self)@.begin(
                write_register_script(reg, byte),
                Outcome::Unit,
            ),
    {
        let script: Vec<Instr> = vec![Instr::Write { reg, value: byte }];
        assert(script@ =~= write_register_script(reg, byte));
        self.begin(script, Outcome::Unit)
    }

    /// Starts setting the state of the radio.
    pub fn set_mode(&mut self, mode: RadioMode) -> (action: Action)
        ensures
            (final(self)@, action) == old(self)@.begin(
                mode_script(mode, old(self)@.reassert_header, old(self)@.explicit_header),
                Outcome::Unit,
            ),
    {
        let mut script: Vec<Instr> = Vec::new();
        push_mode(&mut script, mode, self.reassert_header, self.explicit_header);
        assert(script@ =~= mode_script(mode, self.reassert_header, self.explicit_header));
        self.begin(script, Outcome::Unit)
    }

    /// Starts setting the transmit power, in dBm, and the output pin: 0 for
    /// RFO, with levels from 0 to 14, anything else for PA_BOOST, with levels
    /// from 2 to 20.
    pub fn set_tx_power(&mut self, level: i32, output_pin: u8) -> (action: Action)
        ensures
            (final(self)@, action) == old(self)@.begin(
                tx_power_script(level as int, output_pin),
                Outcome::Unit,
            ),
    {
        let mut script: Vec<Instr> = Vec::new();
        push_tx_power(&mut script, level, output_pin);
        assert(script@ =~= tx_power_script(level as int, output_pin));
        self.begin(script, Outcome::Unit)
    }

    /// Starts selecting the explicit header format.
    pub fn set_explicit_header_mode(&mut self) -> (action: Action)
        ensures
            (final(self)@, action) == old(self)@.begin(
                seq![Instr::Header { explicit: true }],
                Outcome::Unit,
            ),
    {
        let script: Vec<Instr> = vec![Instr::Header { explicit: true }];
        assert(script@ =~= seq![Instr::Header { explicit: true }]);
        self.begin(script, Outcome::Unit)
    }

    /// Starts selecting the implicit header format.
    pub fn set_implicit_header_mode(&mut self) -> (action: Action)
        ensures
            (final(self)@, action) == old(self)@.begin(
                seq![Instr::Header { explicit: false }],
                Outcome::Unit,
            ),
    {
        let script: Vec<Instr> = vec![Instr::Header { explicit: false }];
        assert(script@ =~= seq![Instr::Header { explicit: false }]);
        self.begin(script, Outcome::Unit)
    }

    /// Starts waiting for a packet. With `Some(n)` the IRQ flags are polled
    /// 1 ms apart and the wait fails with `Error::PollTimeout` once `n` polls
    /// and one more have come back empty: `n` counts polls, not time. With
    /// `None` they are polled 100 ms apart for as long as it takes. Ends with
    /// the number of bytes received.
    pub fn poll_irq(&mut self, timeout_ms: Option<i32>) -> (action: Action)
        ensures
            (final(self)@, action) == old(self)@.begin(
                poll_irq_script(
                    timeout_ms,
                    old(self)@.reassert_header,
                    old(self)@.explicit_header,
                ),
                Outcome::Unit,
            ),
    {
        let mut script: Vec<Instr> = Vec::new();
        push_mode(&mut script, RadioMode::RxContinuous, self.reassert_header, self.explicit_header);
        script.push(Instr::AwaitPacket { budget: timeout_ms });
        push_clear_irq(&mut script);
        script.push(Instr::Fetch { reg: Register::RegRxNbBytes.addr(), decode: Decode::Length });
        assert(script@ =~= poll_irq_script(
            timeout_ms,
            self.reassert_header,
            self.explicit_header,
        ));
        self.begin(script, Outcome::Unit)
    }

    /// Starts clearing the radio's IRQ flags.
    pub fn clear_irq(&mut self) -> (action: Action)
        ensures
            (final(self)@, action) == old(self)@.begin(clear_irq_script(), Outcome::Unit),
    {
        let mut script: Vec<Instr> = Vec::new();
        push_clear_irq(&mut script);
        assert(script@ =~= clear_irq_script());
        self.begin(script, Outcome::Unit)
    }

    /// Starts asking whether the radio is transmitting a packet. Ends with
    /// the answer.
    pub fn transmitting(&mut self) -> (action: Action)
        ensures
            (final(self)@, action) == old(self)@.begin(
                seq![Instr::Transmitting { policy: Policy::Report }],
                Outcome::Unit,
            ),
    {
        let script: Vec<Instr> = vec![Instr::Transmitting { policy: Policy::Report }];
        assert(script@ =~= seq![Instr::Transmitting { policy: Policy::Report }]);
        self.begin(script, Outcome::Unit)
    }

    /// Starts asking whether the transmit-complete flag is set. Ends with
    /// the answer.
    pub fn tx_done(&mut self) -> (action: Action)
        ensures
            (final(self)@, action) == old(self)@.begin(
                seq![Instr::Fetch { reg: Register::RegIrqFlags.address(), decode: Decode::TxDone }],
                Outcome::Unit,
            ),
    {
        let script: Vec<Instr> = vec![
            Instr::Fetch { reg: Register::RegIrqFlags.addr(), decode: Decode::TxDone },
        ];
        assert(script@ =~= seq![
            Instr::Fetch { reg: Register::RegIrqFlags.address(), decode: Decode::TxDone },
        ]);
        self.begin(script, Outcome::Unit)
    }

    /// Starts setting the frequency of the radio, in MHz. The handle takes
    /// the frequency at once.
    pub fn set_frequency(&mut self, freq: i64) -> (action: Action)
        ensures
            (final(self)@, action) == (Model { frequency: freq, ..old(self)@ }).begin(
                frequency_script(freq as int),
                Outcome::Unit,
            ),
    {
        self.frequency = freq;
        let mut script: Vec<Instr> = Vec::new();
        push_frequency(&mut script, freq);
        assert(script@ =~= frequency_script(freq as int));
        self.begin(script, Outcome::Unit)
    }

    /// Starts setting the over-current protection of the radio, in mA, from
    /// 45 mA up.
    pub fn set_ocp(&mut self, ma: u8) -> (action: Action)
        requires
            ma >= 45,
        ensures
            (final(self)@, action) == old(self)@.begin(ocp_script(ma as int), Outcome::Unit),
    {
        let script: Vec<Instr> = vec![
            Instr::Write { reg: Register::RegOcp.addr(), value: ocp_value(ma) },
        ];
        assert(script@ =~= ocp_script(ma as int));
        self.begin(script, Outcome::Unit)
    }

    /// Starts reading the signal bandwidth of the radio. Ends with the
    /// bandwidth in Hz.
    pub fn get_signal_bandwidth(&mut self) -> (action: Action)
        ensures
            (final(self)@, action) == old(self)@.begin(
                seq![
                    Instr::Fetch {
                        reg: Register::RegModemConfig1.address(),
                        decode: Decode::Bandwidth,
                    },
                ],
                Outcome::Unit,
            ),
    {
        let script: Vec<Instr> = vec![
            Instr::Fetch { reg: Register::RegModemConfig1.addr(), decode: Decode::Bandwidth },
        ];
        assert(script@ =~= seq![
            Instr::Fetch { reg: Register::RegModemConfig1.address(), decode: Decode::Bandwidth },
        ]);
        self.begin(script, Outcome::Unit)
    }

    /// Starts reading the spreading factor of the radio. Ends with it.
    pub fn get_spreading_factor(&mut self) -> (action: Action)
        ensures
            (final(self)@, action) == old(self)@.begin(
                seq![
                    Instr::Fetch {
                        reg: Register::RegModemConfig2.address(),
                        decode: Decode::HighNibble,
                    },
                ],
                Outcome::Unit,
            ),
    {
        let script: Vec<Instr> = vec![
            Instr::Fetch { reg: Register::RegModemConfig2.addr(), decode: Decode::HighNibble },
        ];
        assert(script@ =~= seq![
            Instr::Fetch { reg: Register::RegModemConfig2.address(), decode: Decode::HighNibble },
        ]);
        self.begin(script, Outcome::Unit)
    }

    /// Starts setting the low-data-rate-optimization flag to what the
    /// bandwidth and the spreading factor of the radio call for.
    pub fn set_ldo_flag(&mut self) -> (action: Action)
        ensures
            (final(self)@, action) == old(self)@.begin(seq![Instr::LowDataRate], Outcome::Unit),
    {
        let script: Vec<Instr> = vec![Instr::LowDataRate];
        assert(script@ =~= seq![Instr::LowDataRate]);
        self.begin(script, Outcome::Unit)
    }

    /// Starts setting the spreading factor of the radio; values outside 6 to
    /// 12 are held to that range. With a spreading factor of 6 packets are
    /// only received and sent in the implicit header format; the caller sees
    /// to that.
    pub fn set_spreading_factor(&mut self, sf: u8) -> (action: Action)
        ensures
            (final(self)@, action) == old(self)@.begin(spreading_factor_script(sf), Outcome::Unit),
    {
        let mut script: Vec<Instr> = Vec::new();
        push_spreading_factor(&mut script, sf);
        assert(script@ =~= spreading_factor_script(sf));
        self.begin(script, Outcome::Unit)
    }

    /// Starts transmitting the first `payload_size` bytes of `buffer` and
    /// waiting until they are sent. Ends with the number of bytes sent, or
    /// with `Error::AlreadyTransmitting`, before anything is written, if the
    /// radio is still transmitting.
    pub fn transmit_payload_busy(&mut self, buffer: [u8; 255], payload_size: usize) -> (action:
        Action)
        requires
            payload_size <= TX_CHUNK_SIZE,
        ensures
            (final(self)@, action) == old(self)@.begin(
                transmit_script(
                    buffer@.take(payload_size as int),
                    true,
                    None,
                    old(self)@.reassert_header,
                    old(self)@.explicit_header,
                ),
                Outcome::Size(payload_size),
            ),
    {
        let mut script: Vec<Instr> = Vec::new();
        push_transmit(
            &mut script,
            buffer.as_slice(),
            payload_size,
            true,
            None,
            self.reassert_header,
            self.explicit_header,
        );
        assert(script@ =~= transmit_script(
            buffer@.take(payload_size as int),
            true,
            None,
            self.reassert_header,
            self.explicit_header,
        ));
        self.begin(script, Outcome::Size(payload_size))
    }

    /// Starts setting the preamble length of the radio, a 16-bit value.
    pub fn set_preamble_length(&mut self, length: i64) -> (action: Action)
        ensures
            (final(self)@, action) == old(self)@.begin(
                preamble_script(length as int),
                Outcome::Unit,
            ),
    {
        let mut script: Vec<Instr> = Vec::new();
        push_preamble(&mut script, length);
        assert(script@ =~= preamble_script(length as int));
        self.begin(script, Outcome::Unit)
    }

    /// Starts enabling or disabling the radio's CRC check.
    pub fn set_crc(&mut self, value: bool) -> (action: Action)
        ensures
            (final(self)@, action) == old(self)@.begin(crc_script(value), Outcome::Unit),
    {
        let mut script: Vec<Instr> = Vec::new();
        push_crc(&mut script, value);
        assert(script@ =~= crc_script(value));
        self.begin(script, Outcome::Unit)
    }

    /// Starts inverting the radio's IQ signals, or setting them back.
    pub fn set_invert_iq(&mut self, value: bool) -> (action: Action)
        ensures
            (final(self)@, action) == old(self)@.begin(invert_iq_script(value), Outcome::Unit),
    {
        let mut script: Vec<Instr> = Vec::new();
        push_invert_iq(&mut script, value);
        assert(script@ =~= invert_iq_script(value));
        self.begin(script, Outcome::Unit)
    }

    /// Starts setting the signal bandwidth of the radio, in Hz. Supported
    /// are 7800, 10400, 15600, 20800, 31250, 41700, 62500, 125000 and 250000;
    /// any other value selects 500 kHz with the register values the errata
    /// give for the band of the carrier.
    pub fn set_signal_bandwidth(&mut self, sbw: i64) -> (action: Action)
        ensures
            (final(self)@, action) == old(self)@.begin(
                signal_bandwidth_script(sbw as int, old(self)@.frequency as int),
                Outcome::Unit,
            ),
    {
        let mut script: Vec<Instr> = Vec::new();
        push_signal_bandwidth(&mut script, sbw, self.frequency);
        assert(script@ =~= signal_bandwidth_script(sbw as int, self.frequency as int));
        self.begin(script, Outcome::Unit)
    }

    /// Starts setting the coding rate of the radio to 4/`denominator`;
    /// denominators outside 5 to 8 are held to that range.
    pub fn set_coding_rate_4(&mut self, denominator: u8) -> (action: Action)
        ensures
            (final(self)@, action) == old(self)@.begin(
                coding_rate_script(denominator),
                Outcome::Unit,
            ),
    {
        let mut script: Vec<Instr> = Vec::new();
        push_coding_rate(&mut script, denominator);
        assert(script@ =~= coding_rate_script(denominator));
        self.begin(script, Outcome::Unit)
    }

    /// Starts transmitting `payload`, of which no more than the first 255
    /// bytes are sent, without waiting for the end of the transmission. Ends
    /// with `Error::AlreadyTransmitting`, before anything is written, if the
    /// radio is still transmitting.
    pub fn transmit_payload(&mut self, payload: &[u8]) -> (action: Action)
        ensures
            (final(self)@, action) == old(self)@.begin(
                transmit_script(
                    payload@.take(
                        if payload@.len() < TX_CHUNK_SIZE {
                            payload@.len() as int
                        } else {
                            TX_CHUNK_SIZE as int
                        },
                    ),
                    false,
                    None,
                    old(self)@.reassert_header,
                    old(self)@.explicit_header,
                ),
                Outcome::Unit,
            ),
    {
        let length: usize = if payload.len() < TX_CHUNK_SIZE {
            payload.len()
        } else {
            TX_CHUNK_SIZE
        };
        let mut script: Vec<Instr> = Vec::new();
        push_transmit(
            &mut script,
            payload,
            length,
            false,
            None,
            self.reassert_header,
            self.explicit_header,
        );
        assert(script@ =~= transmit_script(
            payload@.take(length as int),
            false,
            None,
            self.reassert_header,
            self.explicit_header,
        ));
        self.begin(script, Outcome::Unit)
    }

    /// Starts reading the size of the packet in the FIFO. Ends with it.
    pub fn get_ready_packet_size(&mut self) -> (action: Action)
        ensures
            (final(self)@, action) == old(self)@.begin(
                read_register_script(Register::RegRxNbBytes.address()),
                Outcome::Unit,
            ),
    {
        self.read_register(Register::RegRxNbBytes.addr())
    }

    /// Starts reading the packet in the FIFO. Ends with a buffer of 255
    /// bytes that begins with the packet and is zero beyond it; how many
    /// bytes the packet has is what the wait for it ended with.
    pub fn read_packet(&mut self) -> (action: Action)
        ensures
            (final(self)@, action) == old(self)@.begin(read_packet_script(), Outcome::Unit),
    {
        let mut script: Vec<Instr> = Vec::new();
        push_clear_irq(&mut script);
        script.push(Instr::Drain);
        assert(script@ =~= read_packet_script());
        self.begin(script, Outcome::Unit)
    }

    /// Starts sending `data` in chunks of 255 bytes, each transmitted and
    /// waited for in turn. The first chunk that cannot be sent ends the
    /// transfer with `Error::Bulk`, which names it.
    pub fn tx_bulk(&mut self, data: &[u8]) -> (action: Action)
        ensures
            (final(self)@, action) == old(self)@.begin(
                bulk_script(data@, old(self)@.reassert_header, old(self)@.explicit_header),
                Outcome::Unit,
            ),
    {
        let mut script: Vec<Instr> = Vec::new();
        script.push(Instr::Write { reg: Register::RegDioMapping1.addr(), value: 0x01 });
        push_chunks(&mut script, data, self.reassert_header, self.explicit_header);
        assert(script@ =~= bulk_script(data@, self.reassert_header, self.explicit_header));
        self.begin(script, Outcome::Unit)
    }
}

/// A radio that is being brought up: not yet a handle to operate it with.
pub struct Bringup {
    device: LoRa,
}

impl View for Bringup {
    type V = Model;

    closed spec fn view(&self) -> Model {
        self.device@
    }
}

/// How far bringing a radio up has come.
pub enum Progress {
    /// There is more to do: this action is next.
    Continue(Bringup, Action),
    /// The radio is up; this is its handle.
    Ready(LoRa),
    /// The radio cannot be used, and there is no handle.
    Failed(Error),
}

impl Bringup {
    /// Takes the event that answers the action handed out last. The handle
    /// is handed over when the last step has gone through, and only then: a
    /// version mismatch or a failure of the bus leaves nothing behind.
    pub fn resume(self, event: Event) -> (progress: Progress)
        ensures
            match self@.resume(event).1 {
                Action::Done(Ok(_)) => progress matches Progress::Ready(device) && device@
                    == self@.resume(event).0,
                Action::Done(Err(error)) => progress matches Progress::Failed(e) && e == error,
                action => progress matches Progress::Continue(next, a) && next@
                    == self@.resume(event).0 && a == action,
            },
    {
        let mut device = self.device;
        let action: Action = device.resume(event);
        match action {
            Action::Done(Ok(_)) => Progress::Ready(device),
            Action::Done(Err(error)) => Progress::Failed(error),
            _ => Progress::Continue(Bringup { device }, action),
        }
    }
}

} // verus!
