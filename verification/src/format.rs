//! Traits that encapsulate encoding and decoding of barcode formats, and
//! the error type shared by them.

use vstd::prelude::*;

verus! {

/// Representation of a barcode format.
pub trait Format {
    /// Perform format specific validation to verify data integrity.
    fn checksum(&self) -> bool;
}

/// Describes failure cases for encoding and decoding barcodes.
#[derive(Debug, PartialEq, Eq)]
pub enum Error {
    /// Barcode is too short to hold a frame; carries the actual length.
    InvalidLength(usize),
    /// Framing failed: no recognized start/stop pair.
    BadFormat(String),
    /// Encode failure.
    EncodeErr(String),
    /// Decode failure: an in-stream symbol was not valid in its state.
    DecodeErr(String),
}

/// Support decoding a particular format to the target type.
pub trait Decode<T> where Self: Format {
    /// Convert a formatted data value.
    fn decode(&self) -> Result<T, Error>;
}

/// Support encoding the target type as a particular format.
pub trait Encode<F: Format> {
    /// Convert to a given format.
    fn encode(&self) -> Result<F, Error>;
}

} // verus!
