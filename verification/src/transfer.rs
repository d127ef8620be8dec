//! The transfers a link is asked to carry.

use crate::sealed::Sealed;
use vstd::prelude::*;

verus! {

/// One request to a link. After a transfer the link hands back the bytes it
/// read, as many as [`Transfer::reads`] says.
pub trait Transfer: View + Sealed {
    /// How many bytes the link reads back in this transfer.
    spec fn spec_reads(&self) -> usize;

    /// How many bytes the link reads back in this transfer.
    fn reads(&self) -> (count: usize)
        ensures
            count == self.spec_reads(),
    ;
}

/// One transaction on the addressed bus.
#[derive(Debug, PartialEq, Eq)]
pub enum BusTransfer {
    /// Write `bytes` to the device at `address`.
    Write { address: u8, bytes: Vec<u8> },
    /// Write `bytes` to the device at `address`, then read `count` bytes back
    /// from it in the same transaction.
    WriteRead { address: u8, bytes: Vec<u8>, count: usize },
}

/// What a [`BusTransfer`] holds.
pub enum BusTransferView {
    Write { address: u8, bytes: Seq<u8> },
    WriteRead { address: u8, bytes: Seq<u8>, count: usize },
}

impl View for BusTransfer {
    type V = BusTransferView;

    open spec fn view(&self) -> BusTransferView {
        match *self {
            BusTransfer::Write { address, bytes } => BusTransferView::Write {
                address,
                bytes: bytes@,
            },
            BusTransfer::WriteRead { address, bytes, count } => BusTransferView::WriteRead {
                address,
                bytes: bytes@,
                count,
            },
        }
    }
}

impl Clone for BusTransfer {
    fn clone(&self) -> (copy: Self)
        ensures
            copy@ == self@,
    {
        match self {
            BusTransfer::Write { address, bytes } => BusTransfer::Write {
                address: *address,
                bytes: bytes.clone(),
            },
            BusTransfer::WriteRead { address, bytes, count } => BusTransfer::WriteRead {
                address: *address,
                bytes: bytes.clone(),
                count: *count,
            },
        }
    }
}

impl Sealed for BusTransfer {

}

impl Transfer for BusTransfer {
    open spec fn spec_reads(&self) -> usize {
        match *self {
            BusTransfer::Write { .. } => 0,
            BusTransfer::WriteRead { count, .. } => count,
        }
    }

    fn reads(&self) -> (count: usize) {
        match self {
            BusTransfer::Write { .. } => 0,
            BusTransfer::WriteRead { count, .. } => *count,
        }
    }
}

/// One step on the byte stream.
#[derive(Debug, PartialEq, Eq)]
pub enum StreamTransfer {
    /// Write all of `bytes` to the stream.
    WriteAll { bytes: Vec<u8> },
    /// Force out what the stream has buffered.
    Flush,
    /// Read `count` bytes from the stream.
    Read { count: usize },
}

/// What a [`StreamTransfer`] holds.
pub enum StreamTransferView {
    WriteAll { bytes: Seq<u8> },
    Flush,
    Read { count: usize },
}

impl View for StreamTransfer {
    type V = StreamTransferView;

    open spec fn view(&self) -> StreamTransferView {
        match *self {
            StreamTransfer::WriteAll { bytes } => StreamTransferView::WriteAll { bytes: bytes@ },
            StreamTransfer::Flush => StreamTransferView::Flush,
            StreamTransfer::Read { count } => StreamTransferView::Read { count },
        }
    }
}

impl Clone for StreamTransfer {
    fn clone(&self) -> (copy: Self)
        ensures
            copy@ == self@,
    {
        match self {
            StreamTransfer::WriteAll { bytes } => StreamTransfer::WriteAll { bytes: bytes.clone() },
            StreamTransfer::Flush => StreamTransfer::Flush,
            StreamTransfer::Read { count } => StreamTransfer::Read { count: *count },
        }
    }
}

impl Sealed for StreamTransfer {

}

impl Transfer for StreamTransfer {
    open spec fn spec_reads(&self) -> usize {
        match *self {
            StreamTransfer::Read { count } => count,
            _ => 0,
        }
    }

    fn reads(&self) -> (count: usize) {
        match self {
            StreamTransfer::Read { count } => *count,
            _ => 0,
        }
    }
}

} // verus!
