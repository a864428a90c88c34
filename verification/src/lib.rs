//! Code128 barcode codec.
//!
//! A Code128 datum is an ordered sequence of symbol values in `[0, 106]`
//! shaped as `[start, data .. , check, stop]`.  This crate frames such a
//! sequence, validates its modulo-103 weighted checksum, and decodes the
//! data symbols to text under the three Code128 symbologies, switching or
//! shifting symbology on the directive codes.

pub mod code128;
pub mod datum;
pub mod encodings;
pub mod format;
