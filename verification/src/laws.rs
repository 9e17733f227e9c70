//! What holds of the driver whatever the chip answers.
//!
//! The laws of the bus say how a register is read and written. The laws of
//! the operations are stated over what the script asks for: registers read
//! and written, pauses, and the end of the operation.

use crate::bus::{Action, Error, Event, Frame, Outcome};
use crate::bits::bit_assigned;
use crate::config::{bandwidth_hz_of, low_data_rate_of};
use crate::machine::{
    decoded, header_keep, shows_rx_done, shows_transmitting, shows_tx_done, Await, Effect, Line,
    Model, Request,
};
use crate::mode::RadioMode;
use crate::register::{Register, VERSION_CHECK};
use crate::config::TX_CHUNK_SIZE;
use crate::script::{
    bring_up_script, bulk_script, chunks_script, clear_irq_script, fifo_script, header_script,
    mode_script, read_packet_script, transmit_script, Instr, Policy,
};
use vstd::prelude::*;

verus! {

// ---------------------------------------------------------------------------
// The bus

/// Reading a register is one bus transaction: chip-select is driven low, the
/// address goes out with its top bit clear, followed by a zero byte, while
/// two bytes are read back, and chip-select is driven high. The second byte
/// read back is the value, and the script goes on with it. A failure at any
/// point, or an exchange that brings no bytes back, ends the operation at
/// once and leaves chip-select where it is.
pub proof fn law_register_read(model: Model, reg: u8, reply: Frame)
    requires
        !model.idle(),
    ensures
        ({
            let select = model.issue(Request::Read { reg });
            let exchange = select.0.resume(Event::Completed);
            let release = exchange.0.resume(Event::Reply(reply));
            let next = release.0.resume(Event::Completed);
            &&& select.1 == Action::SelectLow
            &&& exchange.1 == Action::Exchange { frame: Frame { header: reg & 0x7f, data: 0 } }
            &&& release.1 == Action::SelectHigh
            &&& next == model.proceed(Some(reply.data))
            &&& select.0.resume(Event::Failed).1 matches Action::Done(Err(_))
            &&& exchange.0.resume(Event::Failed).1 matches Action::Done(Err(_))
            &&& exchange.0.resume(Event::Completed).1 matches Action::Done(Err(_))
            &&& release.0.resume(Event::Failed).1 matches Action::Done(Err(_))
        }),
{
}

/// Writing a register is one bus transaction: chip-select is driven low, the
/// address goes out with its top bit set, followed by the value, and
/// chip-select is driven high; then the script goes on. A failure at any
/// point ends the operation at once.
pub proof fn law_register_write(model: Model, reg: u8, value: u8)
    requires
        !model.idle(),
    ensures
        ({
            let select = model.issue(Request::Write { reg, value });
            let send = select.0.resume(Event::Completed);
            let release = send.0.resume(Event::Completed);
            let next = release.0.resume(Event::Completed);
            &&& select.1 == Action::SelectLow
            &&& send.1 == Action::Send { frame: Frame { header: reg | 0x80, data: value } }
            &&& release.1 == Action::SelectHigh
            &&& next == model.proceed(None)
            &&& select.0.resume(Event::Failed).1 matches Action::Done(Err(_))
            &&& send.0.resume(Event::Failed).1 matches Action::Done(Err(_))
            &&& release.0.resume(Event::Failed).1 matches Action::Done(Err(_))
        }),
{
}

/// A failure ends whatever operation is under way, at once and with an
/// error: that of the bus, or, within a chunk of a bulk transfer, the one
/// that names the chunk.
pub proof fn law_failure_is_final(model: Model)
    requires
        !model.idle(),
    ensures
        model.resume(Event::Failed).0.idle(),
        model.resume(Event::Failed).1 == Action::Done(
            Err(
                match model.chunk {
                    Some(index) => Error::Bulk { chunk: index, contention: false },
                    None => Error::Transport,
                },
            ),
        ),
{
}

// ---------------------------------------------------------------------------
// Scripts

/// The script after `n` requests in a row have been carried out without a
/// byte to show, starting from the state and request `at`.
pub open spec fn acknowledged(at: (Model, Request), n: nat) -> (Model, Request)
    decreases n,
{
    if n == 0 {
        at
    } else {
        acknowledged(at.0.deliver(None), (n - 1) as nat)
    }
}

/// A run of plain writes at the front of a script is carried out in the
/// order of the script, one register write for each, and changes nothing
/// about the device.
pub proof fn law_writes_run_in_order(model: Model, k: nat)
    requires
        k < model.script.len(),
        forall|i: int| 0 <= i <= k ==> model.script[i] is Write,
    ensures
        ({
            let at = acknowledged(model.advance(), k);
            &&& at.1 == Request::Write {
                reg: model.script[k as int]->Write_reg,
                value: model.script[k as int]->Write_value,
            }
            &&& at.0 == Model {
                script: model.script.skip(k as int + 1),
                awaiting: Await::Ack { effect: Effect::Nothing },
                ..model
            }
        }),
    decreases k,
{
    if k > 0 {
        let next = model.advance();
        let then = Model { script: model.script.skip(1), ..model };
        assert(next.0.deliver(None) == then.advance());
        assert forall|i: int| 0 <= i <= k - 1 implies then.script[i] is Write by {
            assert(then.script[i] == model.script[i + 1]);
        }
        law_writes_run_in_order(then, (k - 1) as nat);
        assert(then.script.skip(k as int) =~= model.script.skip(k as int + 1));
        assert(then.script[k - 1] == model.script[k as int]);
        assert(acknowledged(model.advance(), k) == acknowledged(then.advance(), (k - 1) as nat));
    }
}

// ---------------------------------------------------------------------------
// The mode

/// Every value the driver writes to select a mode has the long-range bit
/// set and the code of the mode below it.
pub proof fn law_mode_value_is_long_range(mode: RadioMode)
    ensures
        mode.register_value() == 0x80 + mode.code(),
        mode.register_value() & 0x80 == 0x80,
        mode.register_value() & 0x7f == mode.code(),
{
    let code = mode.code();
    assert(code <= 6);
    assert((0x80u8 | code) == 0x80 + code && (0x80u8 | code) & 0x80 == 0x80 && (0x80u8 | code)
        & 0x7f == code) by (bit_vector)
        requires
            code <= 6,
    ;
}

/// Changing the mode, on a device that does not reassert the header format,
/// is one write to the mode register, of the long-range bit over the code of
/// the mode: on the bus, chip-select low, the two bytes 0x81 and 0x80 + code,
/// chip-select high. Once that has gone through the device is in the mode
/// asked for; until then, and if anything fails, it is in the mode it was
/// in.
pub proof fn law_set_mode(device: Model, mode: RadioMode)
    requires
        !device.reassert_header,
    ensures
        ({
            let script = mode_script(mode, device.reassert_header, device.explicit_header);
            let select = device.begin(script, Outcome::Unit);
            let send = select.0.resume(Event::Completed);
            let release = send.0.resume(Event::Completed);
            let end = release.0.resume(Event::Completed);
            &&& select.1 == Action::SelectLow
            &&& send.1 == Action::Send {
                frame: Frame { header: 0x81, data: (0x80 + mode.code()) as u8 },
            }
            &&& release.1 == Action::SelectHigh
            &&& end.1 == Action::Done(Ok(Outcome::Unit))
            &&& end.0.mode == mode
            &&& end.0.idle()
            &&& select.0.mode == device.mode
            &&& send.0.mode == device.mode
            &&& release.0.mode == device.mode
            &&& select.0.resume(Event::Failed) == (
                select.0.at_rest(),
                Action::Done(Err(Error::Transport)),
            )
            &&& send.0.resume(Event::Failed) == (
                send.0.at_rest(),
                Action::Done(Err(Error::Transport)),
            )
            &&& release.0.resume(Event::Failed) == (
                release.0.at_rest(),
                Action::Done(Err(Error::Transport)),
            )
        }),
{
    law_mode_value_is_long_range(mode);
    let script = mode_script(mode, device.reassert_header, device.explicit_header);
    assert(script =~= seq![Instr::Enter { mode }]);
    assert(script.skip(1) =~= Seq::<Instr>::empty());
    assert(0x01u8 | 0x80 == 0x81) by (bit_vector);
}

/// Changing the mode, on a device that reasserts the header format, first
/// reads modem configuration 1 and writes it back with the bits of the
/// format, whatever it held, then writes the mode register as above. The
/// header format of the device stays what it was.
pub proof fn law_set_mode_reasserting(device: Model, mode: RadioMode, config: u8)
    requires
        device.reassert_header,
    ensures
        ({
            let script = mode_script(mode, device.reassert_header, device.explicit_header);
            let read = device.start(script, Outcome::Unit);
            let merge = read.0.deliver(Some(config));
            let write = merge.0.deliver(None);
            let end = write.0.deliver(None);
            &&& read.1 == Request::Read { reg: 0x1d }
            &&& merge.1 == Request::Write {
                reg: 0x1d,
                value: config & header_keep(device.explicit_header),
            }
            &&& write.1 == Request::Write { reg: 0x01, value: (0x80 + mode.code()) as u8 }
            &&& write.0.mode == device.mode
            &&& end.1 == Request::Done(Ok(Outcome::Unit))
            &&& end.0.mode == mode
            &&& end.0.explicit_header == device.explicit_header
            &&& end.0.idle()
        }),
{
    law_mode_value_is_long_range(mode);
    let explicit = device.explicit_header;
    let script = mode_script(mode, device.reassert_header, explicit);
    assert(script =~= seq![Instr::Header { explicit }, Instr::Enter { mode }]);
    assert(script.skip(1) =~= seq![Instr::Enter { mode }]);
    assert(script.skip(1).skip(1) =~= Seq::<Instr>::empty());
    let kept = config & header_keep(explicit);
    assert(kept | 0 == kept) by (bit_vector);
}

/// Starting the next instruction leaves the mode of the device alone, and
/// the only request after which the script waits to take on a mode is the
/// write of that mode to the mode register.
pub proof fn law_advance_keeps_mode(model: Model)
    ensures
        model.advance().0.mode == model.mode,
        forall|mode: RadioMode|
            model.advance().0.awaiting == (Await::Ack { effect: Effect::Mode(mode) })
                ==> model.advance().1 == (Request::Write {
                reg: Register::RegOpMode.address(),
                value: mode.register_value(),
            }),
{
}

/// The mode of the device changes when, and only when, a write of the mode
/// register has gone through, and then to the mode written: the mode of the
/// device is always the last mode written to the chip.
pub proof fn law_mode_follows_the_chip(model: Model, event: Event)
    ensures
        model.resume(event).0.mode == (if !model.idle() && event != Event::Failed && (model.line
            == Line::Free || model.line is Releasing) {
            match model.awaiting {
                Await::Ack { effect: Effect::Mode(mode) } => mode,
                _ => model.mode,
            }
        } else {
            model.mode
        }),
{
    if !model.idle() && event != Event::Failed {
        match model.line {
            Line::Free => {
                lemma_deliver_mode(Model { line: Line::Free, ..model }, event.byte());
            },
            Line::Releasing { reply } => {
                lemma_deliver_mode(Model { line: Line::Free, ..model }, reply);
            },
            _ => {},
        }
    }
}

proof fn lemma_deliver_mode(model: Model, reply: Option<u8>)
    ensures
        model.deliver(reply).0.mode == (match model.awaiting {
            Await::Ack { effect: Effect::Mode(mode) } => mode,
            _ => model.mode,
        }),
{
    match model.awaiting {
        Await::Ack { effect } => {
            law_advance_keeps_mode(model.with_effect(effect));
        },
        Await::Value { decode } => {
            if reply is Some {
                law_advance_keeps_mode(Model { outcome: decoded(decode, reply->0), ..model });
            }
        },
        Await::OpMode { policy } => {
            law_advance_keeps_mode(Model { outcome: Outcome::Flag(true), ..model });
        },
        Await::TxFlags { policy } => {
            law_advance_keeps_mode(model);
            law_advance_keeps_mode(model.with_effect(Effect::NotTransmitting));
        },
        Await::RxFlags { budget, count } => {
            law_advance_keeps_mode(model);
        },
        Await::Version => {
            law_advance_keeps_mode(model);
        },
        _ => {},
    }
}

// ---------------------------------------------------------------------------
// The IRQ flags

/// A register that clears the bits written as 1, after `written` is written
/// to it while it holds `flags`.
pub open spec fn write_one_to_clear(flags: u8, written: u8) -> u8 {
    flags & !written
}

/// Clearing the IRQ flags writes back the flags it read. On a register that
/// clears the bits written as 1 nothing is left set after that, so that
/// clearing a second time reads zero, writes zero and changes nothing.
pub proof fn law_clear_irq_twice(device: Model, flags: u8)
    ensures
        ({
            let read = device.start(clear_irq_script(), Outcome::Unit);
            let write = read.0.deliver(Some(flags));
            let end = write.0.deliver(None);
            let left = write_one_to_clear(flags, flags);
            let read_again = end.0.start(clear_irq_script(), Outcome::Unit);
            let write_again = read_again.0.deliver(Some(left));
            let end_again = write_again.0.deliver(None);
            &&& read.1 == Request::Read { reg: 0x12 }
            &&& write.1 == Request::Write { reg: 0x12, value: flags }
            &&& end.1 == Request::Done(Ok(Outcome::Unit))
            &&& left == 0
            &&& read_again.1 == Request::Read { reg: 0x12 }
            &&& write_again.1 == Request::Write { reg: 0x12, value: 0 }
            &&& write_one_to_clear(left, 0) == left
            &&& end_again.1 == Request::Done(Ok(Outcome::Unit))
            &&& end_again.0 == end.0
        }),
{
    let script = clear_irq_script();
    assert(script.skip(1) =~= Seq::<Instr>::empty());
    assert((flags & 0xff) | 0 == flags && flags & !flags == 0) by (bit_vector);
    assert((0u8 & 0xff) | 0 == 0 && 0u8 & !0u8 == 0) by (bit_vector);
}

// ---------------------------------------------------------------------------
// Transmit and receive

/// A transmission asked for while the chip transmits is refused after the
/// one read of the mode register that shows it: no register is written, and
/// the device is as it was.
pub proof fn law_transmit_refused_while_transmitting(
    device: Model,
    payload: Seq<u8>,
    wait: bool,
    size: usize,
    op_mode: u8,
)
    requires
        shows_transmitting(op_mode),
    ensures
        ({
            let script = transmit_script(
                payload,
                wait,
                None,
                device.reassert_header,
                device.explicit_header,
            );
            let read = device.start(script, Outcome::Size(size));
            let end = read.0.deliver(Some(op_mode));
            &&& read.1 == Request::Read { reg: 0x01 }
            &&& end.1 == Request::Done(Err(Error::AlreadyTransmitting))
            &&& end.0.idle()
            &&& end.0.mode == device.mode
            &&& end.0.frequency == device.frequency
            &&& end.0.explicit_header == device.explicit_header
        }),
{
}

/// Asking whether the chip transmits reads the mode register. If that shows
/// a transmission the answer is yes. If not, the IRQ flags are read, a
/// transmit-complete flag left over is cleared by writing its mask, and the
/// answer is no.
pub proof fn law_transmitting(device: Model, op_mode: u8, flags: u8)
    ensures
        ({
            let read = device.start(
                seq![Instr::Transmitting { policy: Policy::Report }],
                Outcome::Unit,
            );
            let seen = read.0.deliver(Some(op_mode));
            let checked = seen.0.deliver(Some(flags));
            let cleared = checked.0.deliver(None);
            &&& read.1 == Request::Read { reg: 0x01 }
            &&& if shows_transmitting(op_mode) {
                seen.1 == Request::Done(Ok(Outcome::Flag(true)))
            } else {
                &&& seen.1 == Request::Read { reg: 0x12 }
                &&& if shows_tx_done(flags) {
                    &&& checked.1 == Request::Write { reg: 0x12, value: 0x08 }
                    &&& cleared.1 == Request::Done(Ok(Outcome::Flag(false)))
                } else {
                    checked.1 == Request::Done(Ok(Outcome::Flag(false)))
                }
            }
        }),
{
    let script = seq![Instr::Transmitting { policy: Policy::Report }];
    assert(script.skip(1) =~= Seq::<Instr>::empty());
}

/// Waiting for the end of a transmission reads the mode register again and
/// again for as long as it shows one, with nothing in between; once it shows
/// none the IRQ flags are read and the script goes on, after clearing a
/// transmit-complete flag if one is set.
pub proof fn law_wait_polls_the_mode(model: Model, op_mode: u8, flags: u8)
    requires
        model.awaiting == (Await::OpMode { policy: Policy::Wait }),
    ensures
        ({
            let seen = model.deliver(Some(op_mode));
            let checked = seen.0.deliver(Some(flags));
            if shows_transmitting(op_mode) {
                seen == (model, Request::Read { reg: 0x01 })
            } else {
                &&& seen.1 == Request::Read { reg: 0x12 }
                &&& if shows_tx_done(flags) {
                    &&& checked.1 == Request::Write { reg: 0x12, value: 0x08 }
                    &&& checked.0.deliver(None) == model.advance()
                } else {
                    checked == model.advance()
                }
            }
        }),
{
}

/// Waiting for a packet with a budget that is not positive gives up at the
/// first poll that shows no packet: one read of the IRQ flags, no pause.
pub proof fn law_poll_without_budget_fails_at_once(
    model: Model,
    limit: i32,
    rest: Seq<Instr>,
    flags: u8,
)
    requires
        model.script == seq![Instr::AwaitPacket { budget: Some(limit) }] + rest,
        model.chunk is None,
        limit <= 0,
        !shows_rx_done(flags),
    ensures
        ({
            let read = model.advance();
            let end = read.0.deliver(Some(flags));
            &&& read.1 == Request::Read { reg: 0x12 }
            &&& end.1 == Request::Done(Err(Error::PollTimeout))
            &&& end.0.idle()
        }),
{
}

/// Waiting for a packet under a budget that is not used up pauses 1 ms after
/// a poll that shows no packet and polls again, with one poll more on the
/// count; without a budget it pauses 100 ms and polls again.
pub proof fn law_poll_pauses_between_polls(
    model: Model,
    budget: Option<i32>,
    count: i32,
    flags: u8,
)
    requires
        model.awaiting == (Await::RxFlags { budget, count }),
        !shows_rx_done(flags),
        budget matches Some(limit) ==> count < limit,
    ensures
        ({
            let pause = model.deliver(Some(flags));
            let read = pause.0.deliver(None);
            &&& pause.1 == Request::Sleep {
                millis: if budget is Some {
                    1
                } else {
                    100
                },
            }
            &&& read.1 == Request::Read { reg: 0x12 }
            &&& read.0.awaiting == Await::RxFlags {
                budget,
                count: if budget is Some {
                    (count + 1) as i32
                } else {
                    count
                },
            }
            &&& read.0.script == model.script
        }),
{
}

/// Waiting for a packet ends at the first poll that shows one, whatever the
/// budget: the rest of the operation follows at once.
pub proof fn law_poll_sees_packet(
    model: Model,
    budget: Option<i32>,
    count: i32,
    flags: u8,
)
    requires
        model.awaiting == (Await::RxFlags { budget, count }),
        shows_rx_done(flags),
    ensures
        model.deliver(Some(flags)) == model.advance(),
{
}

/// The script after the bytes of a packet have come back from the FIFO, one
/// for each request, starting from the state and request `at`.
pub open spec fn drained(at: (Model, Request), bytes: Seq<u8>) -> (Model, Request)
    decreases bytes.len(),
{
    if bytes.len() == 0 {
        at
    } else {
        drained(at.0.deliver(Some(bytes[0])), bytes.skip(1))
    }
}

proof fn lemma_drain(prior: Model, size: u8, index: u8, bytes: Seq<u8>)
    requires
        index + bytes.len() == size,
    ensures
        ({
            let end = drained(prior.drain_from(size, index), bytes);
            &&& end.1 == Request::Write { reg: Register::RegFifoAddrPtr.address(), value: 0 }
            &&& end.0 == Model {
                awaiting: Await::Ack { effect: Effect::Packet },
                packet: end.0.packet,
                ..prior
            }
            &&& forall|j: int|
                0 <= j < 255 ==> end.0.packet@[j] == if index <= j < size {
                    bytes[j - index]
                } else {
                    prior.packet@[j]
                }
            &&& forall|k: int|
                0 <= k < bytes.len() ==> (#[trigger] drained(
                    prior.drain_from(size, index),
                    bytes.take(k),
                )).1 == Request::Read { reg: Register::RegFifo.address() }
        }),
    decreases bytes.len(),
{
    let at = prior.drain_from(size, index);
    if bytes.len() > 0 {
        let stored = Model { packet: crate::machine::packet_with(prior.packet, index, bytes[0]), ..prior };
        let next = (index + 1) as u8;
        assert(at.0.deliver(Some(bytes[0])) == stored.drain_from(size, next));
        lemma_drain(stored, size, next, bytes.skip(1));
        let end = drained(at, bytes);
        assert(end == drained(stored.drain_from(size, next), bytes.skip(1)));
        assert forall|j: int| 0 <= j < 255 implies end.0.packet@[j] == if index <= j < size {
            bytes[j - index]
        } else {
            prior.packet@[j]
        } by {
            if next <= j < size {
                assert(bytes.skip(1)[j - next] == bytes[j - index]);
            }
        }
        assert forall|k: int| 0 <= k < bytes.len() implies (#[trigger] drained(
            at,
            bytes.take(k),
        )).1 == Request::Read { reg: Register::RegFifo.address() } by {
            if k > 0 {
                assert(bytes.take(k).skip(1) =~= bytes.skip(1).take(k - 1));
                assert(bytes.take(k)[0] == bytes[0]);
                assert(drained(at, bytes.take(k)) == drained(
                    stored.drain_from(size, next),
                    bytes.skip(1).take(k - 1),
                ));
            }
        }
    }
}

/// Reading a packet clears the IRQ flags, reads the length and the start
/// address of the packet, points the FIFO at that address, reads as many
/// bytes from the FIFO as the length says and sets the FIFO pointer back to
/// 0. It ends with a buffer that holds those bytes in the order in which
/// they came, and zero behind them.
pub proof fn law_read_packet_drains_the_fifo(
    device: Model,
    flags: u8,
    addr: u8,
    bytes: Seq<u8>,
)
    requires
        bytes.len() <= 255,
    ensures
        ({
            let read_flags = device.start(read_packet_script(), Outcome::Unit);
            let clear = read_flags.0.deliver(Some(flags));
            let read_size = clear.0.deliver(None);
            let read_addr = read_size.0.deliver(Some(bytes.len() as u8));
            let seek = read_addr.0.deliver(Some(addr));
            let first = seek.0.deliver(None);
            let rewind = drained(first, bytes);
            let end = rewind.0.deliver(None);
            &&& read_flags.1 == Request::Read { reg: 0x12 }
            &&& clear.1 == Request::Write { reg: 0x12, value: flags }
            &&& read_size.1 == Request::Read { reg: 0x13 }
            &&& read_addr.1 == Request::Read { reg: 0x10 }
            &&& seek.1 == Request::Write { reg: 0x0d, value: addr }
            &&& forall|k: int|
                0 <= k < bytes.len() ==> (#[trigger] drained(first, bytes.take(k))).1
                    == Request::Read { reg: 0x00 }
            &&& rewind.1 == Request::Write { reg: 0x0d, value: 0 }
            &&& end.1 matches Request::Done(Ok(Outcome::Packet(packet))) && packet@ == bytes
                + Seq::new((255 - bytes.len()) as nat, |i: int| 0u8)
            &&& end.0.idle()
        }),
{
    let script = read_packet_script();
    assert(script.skip(1) =~= seq![Instr::Drain]);
    assert(script.skip(1).skip(1) =~= Seq::<Instr>::empty());
    assert((flags & 0xff) | 0 == flags) by (bit_vector);
    let read_flags = device.start(script, Outcome::Unit);
    let clear = read_flags.0.deliver(Some(flags));
    let read_size = clear.0.deliver(None);
    let size = bytes.len() as u8;
    let read_addr = read_size.0.deliver(Some(size));
    let seek = read_addr.0.deliver(Some(addr));
    let first = seek.0.deliver(None);
    assert(first == seek.0.drain_from(size, 0));
    lemma_drain(seek.0, size, 0, bytes);
    let rewind = drained(first, bytes);
    let end = rewind.0.deliver(None);
    assert(end.1 matches Request::Done(Ok(Outcome::Packet(packet))) && packet@ =~= bytes
        + Seq::new((255 - bytes.len()) as nat, |i: int| 0u8));
}

// ---------------------------------------------------------------------------
// Bulk transfer

/// The bytes that a script loads into the FIFO, in the order in which it
/// loads them.
pub open spec fn fifo_bytes(script: Seq<Instr>) -> Seq<u8>
    decreases script.len(),
{
    if script.len() == 0 {
        Seq::empty()
    } else {
        (match script[0] {
            Instr::Write { reg, value } => if reg == Register::RegFifo.address() {
                seq![value]
            } else {
                Seq::empty()
            },
            _ => Seq::empty(),
        }) + fifo_bytes(script.skip(1))
    }
}

/// The number of transmissions that a script starts.
pub open spec fn transmissions(script: Seq<Instr>) -> nat
    decreases script.len(),
{
    if script.len() == 0 {
        0
    } else {
        (match script[0] {
            Instr::Enter { mode: RadioMode::Tx } => 1nat,
            _ => 0nat,
        }) + transmissions(script.skip(1))
    }
}

proof fn lemma_fifo_bytes_concat(a: Seq<Instr>, b: Seq<Instr>)
    ensures
        fifo_bytes(a + b) == fifo_bytes(a) + fifo_bytes(b),
        transmissions(a + b) == transmissions(a) + transmissions(b),
    decreases a.len(),
{
    if a.len() == 0 {
        assert(a + b =~= b);
        assert(fifo_bytes(a) + fifo_bytes(b) =~= fifo_bytes(b));
    } else {
        assert((a + b).skip(1) =~= a.skip(1) + b);
        lemma_fifo_bytes_concat(a.skip(1), b);
        assert(fifo_bytes(a + b) =~= fifo_bytes(a) + fifo_bytes(b));
    }
}

proof fn lemma_fifo_bytes_of_payload(payload: Seq<u8>)
    ensures
        fifo_bytes(fifo_script(payload)) == payload,
        transmissions(fifo_script(payload)) == 0,
    decreases payload.len(),
{
    let script = fifo_script(payload);
    if payload.len() > 0 {
        assert(script.skip(1) =~= fifo_script(payload.skip(1)));
        lemma_fifo_bytes_of_payload(payload.skip(1));
        assert(seq![payload[0]] + payload.skip(1) =~= payload);
    } else {
        assert(fifo_bytes(script) =~= payload);
    }
}

/// One transmission loads the payload into the FIFO, byte for byte, and
/// starts transmitting once.
pub proof fn law_transmit_loads_payload(
    payload: Seq<u8>,
    wait: bool,
    chunk: Option<usize>,
    reassert: bool,
    explicit: bool,
)
    ensures
        fifo_bytes(transmit_script(payload, wait, chunk, reassert, explicit)) == payload,
        transmissions(transmit_script(payload, wait, chunk, reassert, explicit)) == 1,
{
    let guard = seq![Instr::Transmitting { policy: Policy::Refuse { chunk } }];
    let standby = mode_script(RadioMode::Stdby, reassert, explicit);
    let header = header_script(reassert, explicit);
    let zero = seq![
        Instr::Write { reg: Register::RegIrqFlags.address(), value: 0 },
        Instr::Write { reg: Register::RegFifoAddrPtr.address(), value: 0 },
        Instr::Write { reg: Register::RegPayloadLength.address(), value: 0 },
    ];
    let load = fifo_script(payload);
    let go = seq![
        Instr::Write { reg: Register::RegPayloadLength.address(), value: payload.len() as u8 },
        Instr::Enter { mode: RadioMode::Tx },
    ];
    let tail = if wait {
        seq![Instr::Transmitting { policy: Policy::Wait }]
    } else {
        Seq::<Instr>::empty()
    };
    lemma_fifo_bytes_concat(guard, standby);
    lemma_fifo_bytes_concat(guard + standby, header);
    lemma_fifo_bytes_concat(guard + standby + header, zero);
    lemma_fifo_bytes_concat(guard + standby + header + zero, load);
    lemma_fifo_bytes_concat(guard + standby + header + zero + load, go);
    lemma_fifo_bytes_concat(guard + standby + header + zero + load + go, tail);
    lemma_fifo_bytes_of_payload(payload);
    reveal_with_fuel(fifo_bytes, 4);
    reveal_with_fuel(transmissions, 4);
    assert(fifo_bytes(guard) =~= Seq::<u8>::empty() && transmissions(guard) == 0);
    assert(header.len() <= 1);
    assert(fifo_bytes(header) =~= Seq::<u8>::empty() && transmissions(header) == 0);
    lemma_fifo_bytes_concat(header, seq![Instr::Enter { mode: RadioMode::Stdby }]);
    assert(fifo_bytes(standby) =~= Seq::<u8>::empty() && transmissions(standby) == 0);
    assert(fifo_bytes(zero) =~= Seq::<u8>::empty() && transmissions(zero) == 0);
    assert(fifo_bytes(go) =~= Seq::<u8>::empty() && transmissions(go) == 1);
    assert(fifo_bytes(tail) =~= Seq::<u8>::empty() && transmissions(tail) == 0);
    assert(fifo_bytes(transmit_script(payload, wait, chunk, reassert, explicit)) =~= payload);
}

/// Where the chunk of a bulk transfer with index `k` ends in `data`: 255
/// bytes behind its start at 255 * `k`, or where the data end.
pub open spec fn chunk_end(data: Seq<u8>, k: nat) -> int {
    if data.len() < TX_CHUNK_SIZE * (k + 1) {
        data.len() as int
    } else {
        TX_CHUNK_SIZE * (k + 1)
    }
}

/// The chunk of a bulk transfer with index `k`.
pub open spec fn chunk_of(data: Seq<u8>, k: nat) -> Seq<u8> {
    data.subrange(TX_CHUNK_SIZE * k, chunk_end(data, k))
}

/// In a bulk transfer of `data`, the transmission with index `k` sends the
/// chunk with index `k`, waits for its end, and is followed by the
/// transmissions of what lies behind that chunk.
pub proof fn law_bulk_sends_chunk(data: Seq<u8>, k: nat, reassert: bool, explicit: bool)
    requires
        TX_CHUNK_SIZE * k < data.len(),
        k <= usize::MAX,
    ensures
        chunks_script(data.skip(TX_CHUNK_SIZE * k), k, reassert, explicit) == transmit_script(
            chunk_of(data, k),
            true,
            Some(k as usize),
            reassert,
            explicit,
        ) + chunks_script(data.skip(chunk_end(data, k)), k + 1, reassert, explicit),
        0 < chunk_of(data, k).len() <= TX_CHUNK_SIZE,
        chunk_of(data, k).len() == chunk_end(data, k) - TX_CHUNK_SIZE * k,
{
    let rest = data.skip(TX_CHUNK_SIZE * k);
    let n = if rest.len() < TX_CHUNK_SIZE {
        rest.len() as int
    } else {
        TX_CHUNK_SIZE as int
    };
    assert(rest.take(n) =~= chunk_of(data, k));
    assert(rest.skip(n) =~= data.skip(chunk_end(data, k)));
}

/// A bulk transfer loads every byte of the data into the FIFO, in order and
/// once, over as many transmissions as there are chunks of 255 bytes in it,
/// the last of which may be shorter.
pub proof fn law_bulk_sends_all_bytes(data: Seq<u8>, reassert: bool, explicit: bool)
    ensures
        fifo_bytes(bulk_script(data, reassert, explicit)) == data,
        transmissions(bulk_script(data, reassert, explicit)) == (data.len() + TX_CHUNK_SIZE - 1)
            / (TX_CHUNK_SIZE as int),
{
    let route = seq![Instr::Write { reg: Register::RegDioMapping1.address(), value: 0x01 }];
    lemma_chunks_send_all_bytes(data, 0, reassert, explicit);
    lemma_fifo_bytes_concat(route, chunks_script(data, 0, reassert, explicit));
    reveal_with_fuel(fifo_bytes, 2);
    reveal_with_fuel(transmissions, 2);
    assert(fifo_bytes(route) =~= Seq::<u8>::empty());
    assert(fifo_bytes(bulk_script(data, reassert, explicit)) =~= data);
}

proof fn lemma_chunks_send_all_bytes(data: Seq<u8>, index: nat, reassert: bool, explicit: bool)
    ensures
        fifo_bytes(chunks_script(data, index, reassert, explicit)) == data,
        transmissions(chunks_script(data, index, reassert, explicit)) == (data.len() + 254)
            / 255,
    decreases data.len(),
{
    if data.len() == 0 {
        assert(fifo_bytes(chunks_script(data, index, reassert, explicit)) =~= data);
    } else {
        let n = if data.len() < TX_CHUNK_SIZE {
            data.len() as int
        } else {
            TX_CHUNK_SIZE as int
        };
        let first = transmit_script(data.take(n), true, Some(index as usize), reassert, explicit);
        let others = chunks_script(data.skip(n), index + 1, reassert, explicit);
        law_transmit_loads_payload(data.take(n), true, Some(index as usize), reassert, explicit);
        lemma_chunks_send_all_bytes(data.skip(n), index + 1, reassert, explicit);
        lemma_fifo_bytes_concat(first, others);
        assert(data.take(n) + data.skip(n) =~= data);
    }
}

// ---------------------------------------------------------------------------
// Bring-up

/// Bringing up a chip whose version register holds anything but the
/// expected identifier ends in a version mismatch right after that register
/// is read: the reset line is pulsed low for 10 ms and given 10 ms to settle,
/// and no register is written.
pub proof fn law_bring_up_checks_version(frequency: i64, reassert: bool, version: u8)
    requires
        version != VERSION_CHECK,
    ensures
        ({
            let low = Model::fresh(frequency, reassert).start(
                bring_up_script(frequency as int, reassert),
                Outcome::Unit,
            );
            let first_pause = low.0.deliver(None);
            let high = first_pause.0.deliver(None);
            let second_pause = high.0.deliver(None);
            let read = second_pause.0.deliver(None);
            let end = read.0.deliver(Some(version));
            &&& low.1 == Request::ResetLow
            &&& first_pause.1 == Request::Sleep { millis: 10 }
            &&& high.1 == Request::ResetHigh
            &&& second_pause.1 == Request::Sleep { millis: 10 }
            &&& read.1 == Request::Read { reg: 0x42 }
            &&& end.1 == Request::Done(Err(Error::VersionMismatch))
        }),
{
    let script = bring_up_script(frequency as int, reassert);
    assert(script[0] == Instr::ResetLow);
    assert(script.skip(1)[0] == Instr::Pause { millis: 10 });
    assert(script.skip(1).skip(1)[0] == Instr::ResetHigh);
    assert(script.skip(1).skip(1).skip(1)[0] == Instr::Pause { millis: 10 });
    assert(script.skip(1).skip(1).skip(1).skip(1)[0] == Instr::Version);
}

// ---------------------------------------------------------------------------
// Configuration

/// Setting the low-data-rate flag reads back modem configuration 1, 2 and 3,
/// in that order, and writes modem configuration 3 with bit 3 set if a symbol
/// lasts longer than 16 ms at the bandwidth and the spreading factor in the
/// high nibbles of the first two, cleared if not, and its other bits as they
/// were read.
pub proof fn law_low_data_rate_flag(model: Model, config_1: u8, config_2: u8, config_3: u8)
    requires
        model.script.len() > 0,
        model.script[0] == Instr::LowDataRate,
    ensures
        ({
            let first = model.advance();
            let second = first.0.deliver(Some(config_1));
            let third = second.0.deliver(Some(config_2));
            let write = third.0.deliver(Some(config_3));
            let long = low_data_rate_of(
                bandwidth_hz_of(config_1 >> 4) as int,
                (config_2 >> 4) as nat,
            );
            &&& first.1 == Request::Read { reg: 0x1d }
            &&& second.1 == Request::Read { reg: 0x1e }
            &&& third.1 == Request::Read { reg: 0x26 }
            &&& write.1 == Request::Write { reg: 0x26, value: bit_assigned(config_3, 3, long) }
            &&& bit_assigned(config_3, 3, long) & 0xf7 == config_3 & 0xf7
            &&& bit_assigned(config_3, 3, long) & 0x08 == if long {
                0x08u8
            } else {
                0u8
            }
            &&& write.0.deliver(None) == (Model { script: model.script.skip(1), ..model }).advance()
        }),
{
    assert((config_3 | (1u8 << 3usize)) & 0xf7 == config_3 & 0xf7 && (config_3 | (1u8 << 3usize))
        & 0x08 == 0x08 && (config_3 & !(1u8 << 3usize)) & 0xf7 == config_3 & 0xf7 && (config_3 & !(
    1u8 << 3usize)) & 0x08 == 0) by (bit_vector);
}

/// A merged write keeps every bit of the register that lies in `keep` and
/// outside `set`, and sets every bit of `set`: the fields the driver does not
/// mean to change keep their values.
pub proof fn law_update_preserves_other_bits(model: Model, reg: u8, keep: u8, set: u8, byte: u8)
    requires
        model.awaiting == (Await::Merge { reg, keep, set, header: None }),
    ensures
        model.deliver(Some(byte)).1 == (Request::Write { reg, value: (byte & keep) | set }),
        ((byte & keep) | set) & (keep & !set) == byte & (keep & !set),
        ((byte & keep) | set) & set == set,
{
    assert(((byte & keep) | set) & (keep & !set) == byte & (keep & !set)) by (bit_vector);
    assert(((byte & keep) | set) & set == set) by (bit_vector);
}

} // verus!
