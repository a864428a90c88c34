//! Concrete Code128 symbol representations: the named pattern alphabet and
//! raw `u8` values, each satisfying the [`Encoding`] contract.

use vstd::prelude::*;

use crate::code128::{render, Encoding, Symbology};

verus! {

/// Representation of the 107 Code128 patterns as named tags.
///
/// Each pattern stands for a numeric value from 0 to 106; depending on the
/// active symbology a plain pattern maps to one of three ASCII readings.
/// Values 96-102 are directive codes, 103-105 the start codes, and 106 the
/// stop code.
#[allow(missing_docs)]
#[derive(PartialEq, Eq, Structural, PartialOrd, Ord, Debug, Clone, Copy)]
pub enum Pattern {
    C0,
    C1,
    C2,
    C3,
    C4,
    C5,
    C6,
    C7,
    C8,
    C9,
    C10,
    C11,
    C12,
    C13,
    C14,
    C15,
    C16,
    C17,
    C18,
    C19,
    C20,
    C21,
    C22,
    C23,
    C24,
    C25,
    C26,
    C27,
    C28,
    C29,
    C30,
    C31,
    C32,
    C33,
    C34,
    C35,
    C36,
    C37,
    C38,
    C39,
    C40,
    C41,
    C42,
    C43,
    C44,
    C45,
    C46,
    C47,
    C48,
    C49,
    C50,
    C51,
    C52,
    C53,
    C54,
    C55,
    C56,
    C57,
    C58,
    C59,
    C60,
    C61,
    C62,
    C63,
    C64,
    C65,
    C66,
    C67,
    C68,
    C69,
    C70,
    C71,
    C72,
    C73,
    C74,
    C75,
    C76,
    C77,
    C78,
    C79,
    C80,
    C81,
    C82,
    C83,
    C84,
    C85,
    C86,
    C87,
    C88,
    C89,
    C90,
    C91,
    C92,
    C93,
    C94,
    C95,
    C96,
    C97,
    C98,
    C99,
    C100,
    C101,
    C102,
    C103,
    C104,
    C105,
    C106,
}

/// The numeric value that a pattern stands for.
pub open spec fn pattern_value(p: Pattern) -> u8 {
    match p {
        Pattern::C0 => 0,
        Pattern::C1 => 1,
        Pattern::C2 => 2,
        Pattern::C3 => 3,
        Pattern::C4 => 4,
        Pattern::C5 => 5,
        Pattern::C6 => 6,
        Pattern::C7 => 7,
        Pattern::C8 => 8,
        Pattern::C9 => 9,
        Pattern::C10 => 10,
        Pattern::C11 => 11,
        Pattern::C12 => 12,
        Pattern::C13 => 13,
        Pattern::C14 => 14,
        Pattern::C15 => 15,
        Pattern::C16 => 16,
        Pattern::C17 => 17,
        Pattern::C18 => 18,
        Pattern::C19 => 19,
        Pattern::C20 => 20,
        Pattern::C21 => 21,
        Pattern::C22 => 22,
        Pattern::C23 => 23,
        Pattern::C24 => 24,
        Pattern::C25 => 25,
        Pattern::C26 => 26,
        Pattern::C27 => 27,
        Pattern::C28 => 28,
        Pattern::C29 => 29,
        Pattern::C30 => 30,
        Pattern::C31 => 31,
        Pattern::C32 => 32,
        Pattern::C33 => 33,
        Pattern::C34 => 34,
        Pattern::C35 => 35,
        Pattern::C36 => 36,
        Pattern::C37 => 37,
        Pattern::C38 => 38,
        Pattern::C39 => 39,
        Pattern::C40 => 40,
        Pattern::C41 => 41,
        Pattern::C42 => 42,
        Pattern::C43 => 43,
        Pattern::C44 => 44,
        Pattern::C45 => 45,
        Pattern::C46 => 46,
        Pattern::C47 => 47,
        Pattern::C48 => 48,
        Pattern::C49 => 49,
        Pattern::C50 => 50,
        Pattern::C51 => 51,
        Pattern::C52 => 52,
        Pattern::C53 => 53,
        Pattern::C54 => 54,
        Pattern::C55 => 55,
        Pattern::C56 => 56,
        Pattern::C57 => 57,
        Pattern::C58 => 58,
        Pattern::C59 => 59,
        Pattern::C60 => 60,
        Pattern::C61 => 61,
        Pattern::C62 => 62,
        Pattern::C63 => 63,
        Pattern::C64 => 64,
        Pattern::C65 => 65,
        Pattern::C66 => 66,
        Pattern::C67 => 67,
        Pattern::C68 => 68,
        Pattern::C69 => 69,
        Pattern::C70 => 70,
        Pattern::C71 => 71,
        Pattern::C72 => 72,
        Pattern::C73 => 73,
        Pattern::C74 => 74,
        Pattern::C75 => 75,
        Pattern::C76 => 76,
        Pattern::C77 => 77,
        Pattern::C78 => 78,
        Pattern::C79 => 79,
        Pattern::C80 => 80,
        Pattern::C81 => 81,
        Pattern::C82 => 82,
        Pattern::C83 => 83,
        Pattern::C84 => 84,
        Pattern::C85 => 85,
        Pattern::C86 => 86,
        Pattern::C87 => 87,
        Pattern::C88 => 88,
        Pattern::C89 => 89,
        Pattern::C90 => 90,
        Pattern::C91 => 91,
        Pattern::C92 => 92,
        Pattern::C93 => 93,
        Pattern::C94 => 94,
        Pattern::C95 => 95,
        Pattern::C96 => 96,
        Pattern::C97 => 97,
        Pattern::C98 => 98,
        Pattern::C99 => 99,
        Pattern::C100 => 100,
        Pattern::C101 => 101,
        Pattern::C102 => 102,
        Pattern::C103 => 103,
        Pattern::C104 => 104,
        Pattern::C105 => 105,
        Pattern::C106 => 106,
    }
}

/// The pattern denoted by a raw numeric value: the matching tag on
/// `[0, 106]`, and the stop pattern for any value beyond the alphabet.
pub open spec fn pattern_of(u: u8) -> Pattern {
    match u {
        0 => Pattern::C0,
        1 => Pattern::C1,
        2 => Pattern::C2,
        3 => Pattern::C3,
        4 => Pattern::C4,
        5 => Pattern::C5,
        6 => Pattern::C6,
        7 => Pattern::C7,
        8 => Pattern::C8,
        9 => Pattern::C9,
        10 => Pattern::C10,
        11 => Pattern::C11,
        12 => Pattern::C12,
        13 => Pattern::C13,
        14 => Pattern::C14,
        15 => Pattern::C15,
        16 => Pattern::C16,
        17 => Pattern::C17,
        18 => Pattern::C18,
        19 => Pattern::C19,
        20 => Pattern::C20,
        21 => Pattern::C21,
        22 => Pattern::C22,
        23 => Pattern::C23,
        24 => Pattern::C24,
        25 => Pattern::C25,
        26 => Pattern::C26,
        27 => Pattern::C27,
        28 => Pattern::C28,
        29 => Pattern::C29,
        30 => Pattern::C30,
        31 => Pattern::C31,
        32 => Pattern::C32,
        33 => Pattern::C33,
        34 => Pattern::C34,
        35 => Pattern::C35,
        36 => Pattern::C36,
        37 => Pattern::C37,
        38 => Pattern::C38,
        39 => Pattern::C39,
        40 => Pattern::C40,
        41 => Pattern::C41,
        42 => Pattern::C42,
        43 => Pattern::C43,
        44 => Pattern::C44,
        45 => Pattern::C45,
        46 => Pattern::C46,
        47 => Pattern::C47,
        48 => Pattern::C48,
        49 => Pattern::C49,
        50 => Pattern::C50,
        51 => Pattern::C51,
        52 => Pattern::C52,
        53 => Pattern::C53,
        54 => Pattern::C54,
        55 => Pattern::C55,
        56 => Pattern::C56,
        57 => Pattern::C57,
        58 => Pattern::C58,
        59 => Pattern::C59,
        60 => Pattern::C60,
        61 => Pattern::C61,
        62 => Pattern::C62,
        63 => Pattern::C63,
        64 => Pattern::C64,
        65 => Pattern::C65,
        66 => Pattern::C66,
        67 => Pattern::C67,
        68 => Pattern::C68,
        69 => Pattern::C69,
        70 => Pattern::C70,
        71 => Pattern::C71,
        72 => Pattern::C72,
        73 => Pattern::C73,
        74 => Pattern::C74,
        75 => Pattern::C75,
        76 => Pattern::C76,
        77 => Pattern::C77,
        78 => Pattern::C78,
        79 => Pattern::C79,
        80 => Pattern::C80,
        81 => Pattern::C81,
        82 => Pattern::C82,
        83 => Pattern::C83,
        84 => Pattern::C84,
        85 => Pattern::C85,
        86 => Pattern::C86,
        87 => Pattern::C87,
        88 => Pattern::C88,
        89 => Pattern::C89,
        90 => Pattern::C90,
        91 => Pattern::C91,
        92 => Pattern::C92,
        93 => Pattern::C93,
        94 => Pattern::C94,
        95 => Pattern::C95,
        96 => Pattern::C96,
        97 => Pattern::C97,
        98 => Pattern::C98,
        99 => Pattern::C99,
        100 => Pattern::C100,
        101 => Pattern::C101,
        102 => Pattern::C102,
        103 => Pattern::C103,
        104 => Pattern::C104,
        105 => Pattern::C105,
        _ => Pattern::C106,
    }
}

/// Jump table conversion from a raw value, shared by the `From` impl and
/// the [`Encoding`] impl; values beyond the alphabet collapse to the stop
/// pattern rather than failing.
pub(crate) fn pattern_from(u: u8) -> (r: Pattern)
    ensures
        r == pattern_of(u),
{
    match u {
        0 => Pattern::C0,
        1 => Pattern::C1,
        2 => Pattern::C2,
        3 => Pattern::C3,
        4 => Pattern::C4,
        5 => Pattern::C5,
        6 => Pattern::C6,
        7 => Pattern::C7,
        8 => Pattern::C8,
        9 => Pattern::C9,
        10 => Pattern::C10,
        11 => Pattern::C11,
        12 => Pattern::C12,
        13 => Pattern::C13,
        14 => Pattern::C14,
        15 => Pattern::C15,
        16 => Pattern::C16,
        17 => Pattern::C17,
        18 => Pattern::C18,
        19 => Pattern::C19,
        20 => Pattern::C20,
        21 => Pattern::C21,
        22 => Pattern::C22,
        23 => Pattern::C23,
        24 => Pattern::C24,
        25 => Pattern::C25,
        26 => Pattern::C26,
        27 => Pattern::C27,
        28 => Pattern::C28,
        29 => Pattern::C29,
        30 => Pattern::C30,
        31 => Pattern::C31,
        32 => Pattern::C32,
        33 => Pattern::C33,
        34 => Pattern::C34,
        35 => Pattern::C35,
        36 => Pattern::C36,
        37 => Pattern::C37,
        38 => Pattern::C38,
        39 => Pattern::C39,
        40 => Pattern::C40,
        41 => Pattern::C41,
        42 => Pattern::C42,
        43 => Pattern::C43,
        44 => Pattern::C44,
        45 => Pattern::C45,
        46 => Pattern::C46,
        47 => Pattern::C47,
        48 => Pattern::C48,
        49 => Pattern::C49,
        50 => Pattern::C50,
        51 => Pattern::C51,
        52 => Pattern::C52,
        53 => Pattern::C53,
        54 => Pattern::C54,
        55 => Pattern::C55,
        56 => Pattern::C56,
        57 => Pattern::C57,
        58 => Pattern::C58,
        59 => Pattern::C59,
        60 => Pattern::C60,
        61 => Pattern::C61,
        62 => Pattern::C62,
        63 => Pattern::C63,
        64 => Pattern::C64,
        65 => Pattern::C65,
        66 => Pattern::C66,
        67 => Pattern::C67,
        68 => Pattern::C68,
        69 => Pattern::C69,
        70 => Pattern::C70,
        71 => Pattern::C71,
        72 => Pattern::C72,
        73 => Pattern::C73,
        74 => Pattern::C74,
        75 => Pattern::C75,
        76 => Pattern::C76,
        77 => Pattern::C77,
        78 => Pattern::C78,
        79 => Pattern::C79,
        80 => Pattern::C80,
        81 => Pattern::C81,
        82 => Pattern::C82,
        83 => Pattern::C83,
        84 => Pattern::C84,
        85 => Pattern::C85,
        86 => Pattern::C86,
        87 => Pattern::C87,
        88 => Pattern::C88,
        89 => Pattern::C89,
        90 => Pattern::C90,
        91 => Pattern::C91,
        92 => Pattern::C92,
        93 => Pattern::C93,
        94 => Pattern::C94,
        95 => Pattern::C95,
        96 => Pattern::C96,
        97 => Pattern::C97,
        98 => Pattern::C98,
        99 => Pattern::C99,
        100 => Pattern::C100,
        101 => Pattern::C101,
        102 => Pattern::C102,
        103 => Pattern::C103,
        104 => Pattern::C104,
        105 => Pattern::C105,
        _ => Pattern::C106,
    }
}

impl From<u8> for Pattern {
    /// Conversion from a raw numeric value; total rather than failing.
    fn from(u: u8) -> (r: Pattern) {
        pattern_from(u)
    }
}

impl vstd::std_specs::convert::FromSpecImpl<u8> for Pattern {
    open spec fn obeys_from_spec() -> bool {
        true
    }

    open spec fn from_spec(u: u8) -> Pattern {
        pattern_of(u)
    }
}

/// Converting a raw value into the pattern alphabet and reading its value
/// back is the identity on `[0, 105]`; for 106 and for every value beyond
/// the alphabet the round trip yields the stop value 106, a fixed point
/// rather than an error.
pub proof fn lemma_value_round_trip(u: u8)
    ensures
        pattern_value(pattern_of(u)) == if u < 106 { u } else { 106u8 },
{
}

/// A pattern is recovered exactly from its own numeric value.
pub proof fn lemma_pattern_round_trip(p: Pattern)
    ensures
        pattern_of(pattern_value(p)) == p,
{
}

impl Encoding for Pattern {
    open spec fn value(&self) -> u8 {
        pattern_value(*self)
    }

    fn repr(&self, sym: Symbology) -> (r: String) {
        render(self.as_u8(), sym)
    }

    fn stop() -> (r: Pattern) {
        Pattern::C106
    }

    fn switch(sym: Symbology) -> (r: Pattern) {
        match sym {
            Symbology::A => Pattern::C101,
            Symbology::B => Pattern::C100,
            Symbology::C => Pattern::C99,
        }
    }

    fn start(sym: Symbology) -> (r: Pattern) {
        match sym {
            Symbology::A => Pattern::C103,
            Symbology::B => Pattern::C104,
            Symbology::C => Pattern::C105,
        }
    }

    fn shift() -> (r: Pattern) {
        Pattern::C98
    }

    fn fnc1() -> (r: Pattern) {
        Pattern::C102
    }

    fn fnc2() -> (r: Pattern) {
        Pattern::C97
    }

    fn fnc3() -> (r: Pattern) {
        Pattern::C96
    }

    fn fnc4(sym: Symbology) -> (r: Option<Pattern>) {
        match sym {
            Symbology::A => Some(Pattern::C101),
            Symbology::B => Some(Pattern::C100),
            Symbology::C => None,
        }
    }

    fn from_u8(u: u8) -> (r: Pattern) {
        let p = pattern_from(u);
        proof {
            lemma_value_round_trip(u);
        }
        p
    }

    fn as_u8(&self) -> (r: u8) {
        match self {
            Pattern::C0 => 0,
            Pattern::C1 => 1,
            Pattern::C2 => 2,
            Pattern::C3 => 3,
            Pattern::C4 => 4,
            Pattern::C5 => 5,
            Pattern::C6 => 6,
            Pattern::C7 => 7,
            Pattern::C8 => 8,
            Pattern::C9 => 9,
            Pattern::C10 => 10,
            Pattern::C11 => 11,
            Pattern::C12 => 12,
            Pattern::C13 => 13,
            Pattern::C14 => 14,
            Pattern::C15 => 15,
            Pattern::C16 => 16,
            Pattern::C17 => 17,
            Pattern::C18 => 18,
            Pattern::C19 => 19,
            Pattern::C20 => 20,
            Pattern::C21 => 21,
            Pattern::C22 => 22,
            Pattern::C23 => 23,
            Pattern::C24 => 24,
            Pattern::C25 => 25,
            Pattern::C26 => 26,
            Pattern::C27 => 27,
            Pattern::C28 => 28,
            Pattern::C29 => 29,
            Pattern::C30 => 30,
            Pattern::C31 => 31,
            Pattern::C32 => 32,
            Pattern::C33 => 33,
            Pattern::C34 => 34,
            Pattern::C35 => 35,
            Pattern::C36 => 36,
            Pattern::C37 => 37,
            Pattern::C38 => 38,
            Pattern::C39 => 39,
            Pattern::C40 => 40,
            Pattern::C41 => 41,
            Pattern::C42 => 42,
            Pattern::C43 => 43,
            Pattern::C44 => 44,
            Pattern::C45 => 45,
            Pattern::C46 => 46,
            Pattern::C47 => 47,
            Pattern::C48 => 48,
            Pattern::C49 => 49,
            Pattern::C50 => 50,
            Pattern::C51 => 51,
            Pattern::C52 => 52,
            Pattern::C53 => 53,
            Pattern::C54 => 54,
            Pattern::C55 => 55,
            Pattern::C56 => 56,
            Pattern::C57 => 57,
            Pattern::C58 => 58,
            Pattern::C59 => 59,
            Pattern::C60 => 60,
            Pattern::C61 => 61,
            Pattern::C62 => 62,
            Pattern::C63 => 63,
            Pattern::C64 => 64,
            Pattern::C65 => 65,
            Pattern::C66 => 66,
            Pattern::C67 => 67,
            Pattern::C68 => 68,
            Pattern::C69 => 69,
            Pattern::C70 => 70,
            Pattern::C71 => 71,
            Pattern::C72 => 72,
            Pattern::C73 => 73,
            Pattern::C74 => 74,
            Pattern::C75 => 75,
            Pattern::C76 => 76,
            Pattern::C77 => 77,
            Pattern::C78 => 78,
            Pattern::C79 => 79,
            Pattern::C80 => 80,
            Pattern::C81 => 81,
            Pattern::C82 => 82,
            Pattern::C83 => 83,
            Pattern::C84 => 84,
            Pattern::C85 => 85,
            Pattern::C86 => 86,
            Pattern::C87 => 87,
            Pattern::C88 => 88,
            Pattern::C89 => 89,
            Pattern::C90 => 90,
            Pattern::C91 => 91,
            Pattern::C92 => 92,
            Pattern::C93 => 93,
            Pattern::C94 => 94,
            Pattern::C95 => 95,
            Pattern::C96 => 96,
            Pattern::C97 => 97,
            Pattern::C98 => 98,
            Pattern::C99 => 99,
            Pattern::C100 => 100,
            Pattern::C101 => 101,
            Pattern::C102 => 102,
            Pattern::C103 => 103,
            Pattern::C104 => 104,
            Pattern::C105 => 105,
            Pattern::C106 => 106,
        }
    }
}

impl Encoding for u8 {
    open spec fn value(&self) -> u8 {
        *self
    }

    fn repr(&self, sym: Symbology) -> (r: String) {
        render(*self, sym)
    }

    fn stop() -> (r: u8) {
        106
    }

    fn switch(sym: Symbology) -> (r: u8) {
        match sym {
            Symbology::A => 101,
            Symbology::B => 100,
            Symbology::C => 99,
        }
    }

    fn start(sym: Symbology) -> (r: u8) {
        match sym {
            Symbology::A => 103,
            Symbology::B => 104,
            Symbology::C => 105,
        }
    }

    fn shift() -> (r: u8) {
        98
    }

    fn fnc1() -> (r: u8) {
        102
    }

    fn fnc2() -> (r: u8) {
        97
    }

    fn fnc3() -> (r: u8) {
        96
    }

    fn fnc4(sym: Symbology) -> (r: Option<u8>) {
        match sym {
            Symbology::A => Some(101),
            Symbology::B => Some(100),
            Symbology::C => None,
        }
    }

    fn from_u8(u: u8) -> (r: u8) {
        u
    }

    fn as_u8(&self) -> (r: u8) {
        *self
    }
}

} // verus!
