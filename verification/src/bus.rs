//! What passes between the driver and whoever owns the hardware: the actions
//! the driver asks for, the events it is told of, and what an operation ends
//! with.

use vstd::prelude::*;

verus! {

/// The two bytes of one bus transaction, out or back.
#[derive(Clone, Copy, Debug, PartialEq, Eq, Structural)]
pub struct Frame {
    /// First byte. Outbound it holds the register address in its low seven
    /// bits and the write flag in its top bit.
    pub header: u8,
    /// Second byte: the value written, or, in a reply, the value read.
    pub data: u8,
}

impl Frame {
    /// The frame that reads register `addr`: the address with the top bit
    /// clear, then a zero byte to clock the value out.
    pub open spec fn reading(addr: u8) -> Frame {
        Frame { header: addr & 0x7f, data: 0 }
    }

    /// The frame that writes `value` to register `addr`: the address with the
    /// top bit set, then the value.
    pub open spec fn writing(addr: u8, value: u8) -> Frame {
        Frame { header: addr | 0x80, data: value }
    }

    /// Builds the frame that reads register `addr`.
    pub fn read(addr: u8) -> (frame: Frame)
        ensures
            frame == Frame::reading(addr),
    {
        Frame { header: addr & 0x7f, data: 0 }
    }

    /// Builds the frame that writes `value` to register `addr`.
    pub fn write(addr: u8, value: u8) -> (frame: Frame)
        ensures
            frame == Frame::writing(addr, value),
    {
        Frame { header: addr | 0x80, data: value }
    }

    /// The frame as the bytes that go over the bus, in order.
    pub fn to_bytes(self) -> (bytes: [u8; 2])
        ensures
            bytes@ == seq![self.header, self.data],
    {
        let bytes: [u8; 2] = [self.header, self.data];
        assert(bytes@ =~= seq![self.header, self.data]);
        bytes
    }

    /// The frame made of the bytes that came back over the bus.
    pub fn from_bytes(bytes: [u8; 2]) -> (frame: Frame)
        ensures
            frame.header == bytes@[0],
            frame.data == bytes@[1],
    {
        Frame { header: bytes[0], data: bytes[1] }
    }
}

/// Why an operation failed.
#[derive(Clone, Copy, Debug, PartialEq, Eq)]
pub enum Error {
    /// A bus transaction failed. Nothing is retried.
    Transport,
    /// The version register did not hold the identifier of this chip family.
    VersionMismatch,
    /// A transmission was asked for while the chip was still transmitting.
    AlreadyTransmitting,
    /// No packet arrived within the polls allowed.
    PollTimeout,
    /// A bulk transfer stopped at the chunk with this index (from 0), either
    /// because the chip was still transmitting (`contention`) or because a
    /// bus transaction failed.
    Bulk { chunk: usize, contention: bool },
}

/// What a finished operation hands back.
#[derive(Clone, Copy, Debug, PartialEq, Eq)]
pub enum Outcome {
    /// Nothing but success.
    Unit,
    /// A register value or a field of one.
    Byte(u8),
    /// The answer to a yes-or-no query.
    Flag(bool),
    /// A number of bytes.
    Size(usize),
    /// A signal bandwidth in Hz, -1 if the chip reports none.
    Bandwidth(i64),
    /// The bytes drained from the FIFO, front first, zero beyond them.
    Packet([u8; 255]),
}

/// What the driver asks to have done next.
#[derive(Clone, Copy, Debug, PartialEq, Eq)]
pub enum Action {
    /// Drive chip-select low.
    SelectLow,
    /// Drive chip-select high.
    SelectHigh,
    /// Send the frame over the bus while reading two bytes back. Answered by
    /// `Event::Reply` with those bytes.
    Exchange { frame: Frame },
    /// Send the frame over the bus without reading.
    Send { frame: Frame },
    /// Wait this many milliseconds.
    Sleep { millis: u64 },
    /// Drive the reset line low.
    ResetLow,
    /// Drive the reset line high.
    ResetHigh,
    /// The operation is over; this is how it ended.
    Done(Result<Outcome, Error>),
    /// No operation is under way.
    Idle,
}

/// What became of the action handed out last.
#[derive(Clone, Copy, Debug, PartialEq, Eq)]
pub enum Event {
    /// It was carried out.
    Completed,
    /// The exchange was carried out and these bytes came back.
    Reply(Frame),
    /// It failed.
    Failed,
}

impl Event {
    /// The byte an event delivers: the data byte of a reply.
    pub open spec fn byte(self) -> Option<u8> {
        match self {
            Event::Reply(frame) => Some(frame.data),
            _ => None,
        }
    }
}

} // verus!
