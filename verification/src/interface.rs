//! The two interfaces to the peripheral and the operations they offer.
//!
//! Both interfaces offer the same four operations. On the bus each operation
//! is a single transaction to the peripheral's address. On the stream each
//! operation sends one frame, which opens with the sync byte, and flushes
//! before anything else happens.

use crate::command::{command_byte, spec_command_byte, Commands, MAX_REGISTER};
use crate::exchange::Exchange;
use crate::reply::Reply;
use crate::sealed::Sealed;
use crate::transfer::{
    BusTransfer, BusTransferView, StreamTransfer, StreamTransferView, Transfer,
};
use vstd::prelude::*;

verus! {

/// The byte that opens every frame on the byte stream.
pub const SYNC: u8 = 0x55;

/// The peripheral on an addressed bus. The interface owns the bus and keeps
/// the address the peripheral answers to; it holds nothing else.
#[derive(Debug)]
pub struct I2cInterface<I2C> {
    /// The bus.
    pub i2c: I2C,
    /// The address of the peripheral on the bus.
    pub address: u8,
}

/// The peripheral at the far end of a byte stream. The interface owns the
/// stream and holds nothing else.
#[derive(Debug)]
pub struct SerialInterface<UART> {
    /// The stream.
    pub serial: UART,
}

/// A way to reach the peripheral.
pub trait Link: Sealed {
    /// What this link is asked to carry.
    type Transfer: Transfer;
}

/// The operations that send data to the peripheral. Each one starts an
/// exchange that yields nothing.
pub trait WriteData: Link {
    /// The transfers that write `data` to `register`.
    spec fn register_write(&self, register: u8, data: u8) -> Seq<<Self::Transfer as View>::V>;

    /// The transfers that send `payload` as it is.
    spec fn data_write(&self, payload: u8) -> Seq<<Self::Transfer as View>::V>;

    /// Starts a write of `data` to `register`.
    fn write_register(&self, register: u8, data: u8) -> (exchange: Exchange<Self::Transfer, ()>)
        requires
            register <= MAX_REGISTER,
        ensures
            exchange@ == self.register_write(register, data),
    ;

    /// Starts a write of `payload` with no command in front of it.
    fn write_data(&self, payload: u8) -> (exchange: Exchange<Self::Transfer, ()>)
        ensures
            exchange@ == self.data_write(payload),
    ;
}

/// The operations that fetch data from the peripheral. Each one starts an
/// exchange that yields the value read.
pub trait ReadData: Link {
    /// The transfers that read `register`.
    spec fn register_read(&self, register: u8) -> Seq<<Self::Transfer as View>::V>;

    /// The transfers that read the latest data sample.
    spec fn data_read(&self) -> Seq<<Self::Transfer as View>::V>;

    /// Starts a read of `register`; the exchange yields the byte the
    /// peripheral sent, as it came.
    fn read_register(&self, register: u8) -> (exchange: Exchange<Self::Transfer, u8>)
        requires
            register <= MAX_REGISTER,
        ensures
            exchange@ == self.register_read(register),
    ;

    /// Starts a read of the latest data sample; the exchange yields the
    /// sample that the three bytes from the peripheral stand for.
    fn read_data(&self) -> (exchange: Exchange<Self::Transfer, u32>)
        ensures
            exchange@ == self.data_read(),
    ;
}

/// On the bus a write is one transaction that carries `body` to `address`.
pub open spec fn bus_write(address: u8, body: Seq<u8>) -> Seq<BusTransferView> {
    seq![BusTransferView::Write { address, bytes: body }]
}

/// On the bus a read is one transaction that carries `body` to `address`
/// and reads `count` bytes back.
pub open spec fn bus_read(address: u8, body: Seq<u8>, count: usize) -> Seq<BusTransferView> {
    seq![BusTransferView::WriteRead { address, bytes: body, count }]
}

/// A frame on the stream: the sync byte, then the body.
pub open spec fn stream_frame(body: Seq<u8>) -> Seq<u8> {
    seq![SYNC] + body
}

/// On the stream a write sends the frame in full and then flushes.
pub open spec fn stream_write(body: Seq<u8>) -> Seq<StreamTransferView> {
    seq![StreamTransferView::WriteAll { bytes: stream_frame(body) }, StreamTransferView::Flush]
}

/// On the stream a read sends the frame in full, flushes, and then reads
/// `count` bytes.
pub open spec fn stream_read(body: Seq<u8>, count: usize) -> Seq<StreamTransferView> {
    stream_write(body).push(StreamTransferView::Read { count })
}

impl<I2C> I2cInterface<I2C> {
    /// Starts an operation that writes `body` and reads nothing.
    fn write(&self, body: Vec<u8>) -> (exchange: Exchange<BusTransfer, ()>)
        ensures
            exchange@ == bus_write(self.address, body@),
    {
        let transfer = BusTransfer::Write { address: self.address, bytes: body };
        let exchange = Exchange::begin(vec![transfer]);
        assert(exchange@ =~= bus_write(self.address, body@));
        exchange
    }

    /// Starts an operation that writes `body` and reads a value of `R` back.
    fn read<R: Reply>(&self, body: Vec<u8>) -> (exchange: Exchange<BusTransfer, R>)
        ensures
            exchange@ == bus_read(self.address, body@, R::spec_width()),
    {
        let transfer = BusTransfer::WriteRead {
            address: self.address,
            bytes: body,
            count: R::width(),
        };
        let exchange = Exchange::begin(vec![transfer]);
        assert(exchange@ =~= bus_read(self.address, body@, R::spec_width()));
        exchange
    }
}

impl<I2C> Sealed for I2cInterface<I2C> {

}

impl<I2C> Link for I2cInterface<I2C> {
    type Transfer = BusTransfer;
}

impl<I2C> WriteData for I2cInterface<I2C> {
    /// One write of the write command for `register` and the value.
    open spec fn register_write(&self, register: u8, data: u8) -> Seq<BusTransferView> {
        bus_write(self.address, seq![spec_command_byte(Commands::WReg, register), data])
    }

    /// One write of the payload alone.
    open spec fn data_write(&self, payload: u8) -> Seq<BusTransferView> {
        bus_write(self.address, seq![payload])
    }

    fn write_register(&self, register: u8, data: u8) -> (exchange: Exchange<BusTransfer, ()>)
        ensures
            exchange@ == bus_write(
                self.address,
                seq![spec_command_byte(Commands::WReg, register), data],
            ),
    {
        let command: u8 = command_byte(Commands::WReg, register);
        let body: Vec<u8> = vec![command, data];
        assert(body@ =~= seq![command, data]);
        self.write(body)
    }

    fn write_data(&self, payload: u8) -> (exchange: Exchange<BusTransfer, ()>)
        ensures
            exchange@ == bus_write(self.address, seq![payload]),
    {
        let body: Vec<u8> = vec![payload];
        assert(body@ =~= seq![payload]);
        self.write(body)
    }
}

impl<I2C> ReadData for I2cInterface<I2C> {
    /// One transaction that writes the read command for `register` and reads
    /// one byte back.
    open spec fn register_read(&self, register: u8) -> Seq<BusTransferView> {
        bus_read(self.address, seq![spec_command_byte(Commands::RReg, register)], 1)
    }

    /// One transaction that writes the read-data command and reads three bytes
    /// back.
    open spec fn data_read(&self) -> Seq<BusTransferView> {
        bus_read(self.address, seq![spec_command_byte(Commands::RData, 0)], 3)
    }

    fn read_register(&self, register: u8) -> (exchange: Exchange<BusTransfer, u8>)
        ensures
            exchange@ == bus_read(
                self.address,
                seq![spec_command_byte(Commands::RReg, register)],
                1,
            ),
    {
        let command: u8 = command_byte(Commands::RReg, register);
        let body: Vec<u8> = vec![command];
        assert(body@ =~= seq![command]);
        self.read(body)
    }

    fn read_data(&self) -> (exchange: Exchange<BusTransfer, u32>)
        ensures
            exchange@ == bus_read(self.address, seq![spec_command_byte(Commands::RData, 0)], 3),
    {
        let command: u8 = command_byte(Commands::RData, 0);
        let body: Vec<u8> = vec![command];
        assert(body@ =~= seq![command]);
        self.read(body)
    }
}

impl<UART> SerialInterface<UART> {
    /// Puts the sync byte in front of `body`.
    fn frame(body: Vec<u8>) -> (frame: Vec<u8>)
        ensures
            frame@ == stream_frame(body@),
    {
        let mut frame: Vec<u8> = vec![SYNC];
        let mut body = body;
        frame.append(&mut body);
        frame
    }

    /// Starts an operation that sends `body` in a frame and reads nothing.
    fn write(&self, body: Vec<u8>) -> (exchange: Exchange<StreamTransfer, ()>)
        ensures
            exchange@ == stream_write(body@),
    {
        let send = StreamTransfer::WriteAll { bytes: Self::frame(body) };
        let exchange = Exchange::begin(vec![send, StreamTransfer::Flush]);
        assert(exchange@ =~= stream_write(body@));
        exchange
    }

    /// Starts an operation that sends `body` in a frame and reads a value of
    /// `R` back.
    fn read<R: Reply>(&self, body: Vec<u8>) -> (exchange: Exchange<StreamTransfer, R>)
        ensures
            exchange@ == stream_read(body@, R::spec_width()),
    {
        let send = StreamTransfer::WriteAll { bytes: Self::frame(body) };
        let receive = StreamTransfer::Read { count: R::width() };
        let exchange = Exchange::begin(vec![send, StreamTransfer::Flush, receive]);
        assert(exchange@ =~= stream_read(body@, R::spec_width()));
        exchange
    }
}

impl<UART> Sealed for SerialInterface<UART> {

}

impl<UART> Link for SerialInterface<UART> {
    type Transfer = StreamTransfer;
}

impl<UART> WriteData for SerialInterface<UART> {
    /// The frame with the write command for `register` and the value, then a
    /// flush.
    open spec fn register_write(&self, register: u8, data: u8) -> Seq<StreamTransferView> {
        stream_write(seq![spec_command_byte(Commands::WReg, register), data])
    }

    /// The frame with the payload alone, then a flush.
    open spec fn data_write(&self, payload: u8) -> Seq<StreamTransferView> {
        stream_write(seq![payload])
    }

    fn write_register(&self, register: u8, data: u8) -> (exchange: Exchange<StreamTransfer, ()>)
        ensures
            exchange@ == stream_write(seq![spec_command_byte(Commands::WReg, register), data]),
    {
        let command: u8 = command_byte(Commands::WReg, register);
        let body: Vec<u8> = vec![command, data];
        assert(body@ =~= seq![command, data]);
        self.write(body)
    }

    fn write_data(&self, payload: u8) -> (exchange: Exchange<StreamTransfer, ()>)
        ensures
            exchange@ == stream_write(seq![payload]),
    {
        let body: Vec<u8> = vec![payload];
        assert(body@ =~= seq![payload]);
        self.write(body)
    }
}

impl<UART> ReadData for SerialInterface<UART> {
    /// The frame with the read command for `register`, a flush, then a read of
    /// one byte.
    open spec fn register_read(&self, register: u8) -> Seq<StreamTransferView> {
        stream_read(seq![spec_command_byte(Commands::RReg, register)], 1)
    }

    /// The frame with the read-data command, a flush, then a read of three
    /// bytes.
    open spec fn data_read(&self) -> Seq<StreamTransferView> {
        stream_read(seq![spec_command_byte(Commands::RData, 0)], 3)
    }

    fn read_register(&self, register: u8) -> (exchange: Exchange<StreamTransfer, u8>)
        ensures
            exchange@ == stream_read(seq![spec_command_byte(Commands::RReg, register)], 1),
    {
        let command: u8 = command_byte(Commands::RReg, register);
        let body: Vec<u8> = vec![command];
        assert(body@ =~= seq![command]);
        self.read(body)
    }

    fn read_data(&self) -> (exchange: Exchange<StreamTransfer, u32>)
        ensures
            exchange@ == stream_read(seq![spec_command_byte(Commands::RData, 0)], 3),
    {
        let command: u8 = command_byte(Commands::RData, 0);
        let body: Vec<u8> = vec![command];
        assert(body@ =~= seq![command]);
        self.read(body)
    }
}

} // verus!
