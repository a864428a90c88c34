//! A fully framed Code128 datum held by parts: the start code's
//! symbology, the data symbols, and the declared check pattern.

use vstd::prelude::*;

use crate::code128::{
    check_value, compute_check, decode_symbols, initial_state, run_decode, values_of, Parser,
    Symbology,
};
use crate::encodings::{
    lemma_pattern_round_trip, lemma_value_round_trip, pattern_from, pattern_of, pattern_value,
    Pattern,
};
use crate::format::Error;

verus! {

/// A full Code128 encoded datum.
///
/// The frame boundaries are implied by the fields: the start code selects
/// the initial symbology, the symbols encode a string, and the check
/// pattern is compared against the modulo-103 weighted checksum of the
/// rest.
#[derive(PartialEq, Eq, Debug)]
pub struct Code128 {
    /// Start code which indicates the initial symbology.
    pub start: Symbology,
    /// Collection of symbols which encode a string.
    pub symbols: Vec<Pattern>,
    /// The declared check pattern, calculated from the raw pattern values.
    pub checksum: Pattern,
}

impl Code128 {
    /// The check value owed by this datum: the weighted sum of its start
    /// code and data values, reduced modulo 103.
    pub open spec fn expected_check(&self) -> int {
        check_value(self.start, values_of(self.symbols@))
    }

    /// Calculate the checksum pattern from the raw pattern values.
    pub fn calc_checksum(&self) -> (r: Pattern)
        ensures
            r == pattern_of(self.expected_check() as u8),
            pattern_value(r) as int == self.expected_check(),
    {
        let c = compute_check(self.start, self.symbols.as_slice());
        let p = pattern_from(c);
        proof {
            lemma_value_round_trip(c);
        }
        p
    }

    /// Verify that the declared check pattern matches the expected
    /// checksum.
    pub fn verify_checksum(&self) -> (r: bool)
        ensures
            r == (pattern_value(self.checksum) as int == self.expected_check()),
    {
        let r = self.calc_checksum() == self.checksum;
        proof {
            lemma_pattern_round_trip(self.checksum);
            lemma_value_round_trip(self.expected_check() as u8);
        }
        r
    }

    /// Decode the data symbols to the string they encode, reading them in
    /// the start symbology and following the directive codes.  A symbol
    /// that is not valid where it stands yields [`Error::DecodeErr`].
    pub fn decode(&self) -> (r: Result<String, Error>)
        ensures
            match decode_symbols(initial_state(self.start), values_of(self.symbols@)) {
                Ok(cs) => r matches Ok(s) && s@ == cs,
                Err(v) => (r matches Err(e) && e matches Error::DecodeErr(_)),
            },
    {
        let st = match self.start {
            Symbology::A => Parser::A,
            Symbology::B => Parser::B,
            Symbology::C => Parser::C,
        };
        match run_decode(st, self.symbols.as_slice()) {
            Ok(s) => Ok(s),
            Err(_v) => Err(Error::DecodeErr("unrecognized encoding".to_string())),
        }
    }
}

} // verus!
