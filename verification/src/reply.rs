//! The values an operation can yield.

use crate::sample::{decode_sample, sample_value};
use crate::sealed::Sealed;
use vstd::prelude::*;

verus! {

/// A value that is read out of the bytes of an operation's last transfer.
pub trait Reply: Sized + Sealed {
    /// How many bytes the value is read from.
    spec fn spec_width() -> usize;

    /// The value that `bytes` stand for.
    spec fn decoded(bytes: Seq<u8>) -> Self;

    /// How many bytes the value is read from.
    fn width() -> (count: usize)
        ensures
            count == Self::spec_width(),
    ;

    /// Reads the value out of the bytes that came back.
    fn decode(bytes: &Vec<u8>) -> (value: Self)
        requires
            bytes@.len() == Self::spec_width(),
        ensures
            value == Self::decoded(bytes@),
    ;
}

impl Sealed for () {

}

impl Sealed for u8 {

}

impl Sealed for u32 {

}

/// A write yields nothing and reads no bytes.
impl Reply for () {
    open spec fn spec_width() -> usize {
        0
    }

    open spec fn decoded(bytes: Seq<u8>) -> () {
        ()
    }

    fn width() -> (count: usize) {
        0
    }

    fn decode(bytes: &Vec<u8>) -> (value: ()) {
        ()
    }
}

/// A register is one byte, handed on as it came.
impl Reply for u8 {
    open spec fn spec_width() -> usize {
        1
    }

    open spec fn decoded(bytes: Seq<u8>) -> u8 {
        bytes[0]
    }

    fn width() -> (count: usize) {
        1
    }

    fn decode(bytes: &Vec<u8>) -> (value: u8) {
        bytes[0]
    }
}

/// A data sample is three bytes, most significant first.
impl Reply for u32 {
    open spec fn spec_width() -> usize {
        3
    }

    open spec fn decoded(bytes: Seq<u8>) -> u32 {
        sample_value(bytes)
    }

    fn width() -> (count: usize) {
        3
    }

    fn decode(bytes: &Vec<u8>) -> (value: u32) {
        decode_sample([bytes[0], bytes[1], bytes[2]])
    }
}

} // verus!
