//! The Code128 core: symbologies, the encoding contract, framing, the
//! modulo-103 checksum, and the decode state machine, together with the
//! specification functions that the executable code is proved against.

use vstd::prelude::*;
use vstd::slice::{slice_index_get, slice_subrange};

use crate::format::{Decode, Error, Format};

verus! {

/// Code128 alphabets (symbologies) which specify how symbol values map to
/// characters.
#[derive(PartialEq, Eq, Structural, Debug, Clone, Copy)]
pub enum Symbology {
    /// A-Z, 0-9, and special characters (ASCII 0 to 95).
    A,
    /// a-z, A-Z, and 0-9 (ASCII 32 to 127).
    B,
    /// High density, number pair encoding.
    C,
}

/// The numeric value of the start code that selects a symbology.
pub open spec fn start_value(sym: Symbology) -> u8 {
    match sym {
        Symbology::A => 103,
        Symbology::B => 104,
        Symbology::C => 105,
    }
}

/// The numeric value of the code that switches the active symbology to the
/// given one.
pub open spec fn switch_value(sym: Symbology) -> u8 {
    match sym {
        Symbology::A => 101,
        Symbology::B => 100,
        Symbology::C => 99,
    }
}

/// Whether `v` is a start code (103, 104 or 105).
pub open spec fn is_start(v: u8) -> bool {
    v == 103 || v == 104 || v == 105
}

/// The symbology selected by the start code `v`.
pub open spec fn symbology_of_start(v: u8) -> Symbology
    recommends
        is_start(v),
{
    if v == 103 {
        Symbology::A
    } else if v == 104 {
        Symbology::B
    } else {
        Symbology::C
    }
}

/// Whether `v` is a plain symbol under `sym`, one that denotes a character
/// (or a digit pair) rather than a directive.
pub open spec fn is_plain(v: u8, sym: Symbology) -> bool {
    match sym {
        Symbology::A => v < 96,
        Symbology::B => v < 96,
        Symbology::C => v < 100,
    }
}

/// The characters that the plain symbol `v` denotes under `sym`.
///
/// Symbology A maps values 0-63 to ASCII 32-95 and values 64-95 to
/// ASCII 0-31; symbology B maps values 0-95 to ASCII 32-127; symbology C
/// maps values 0-99 to their two decimal digits.
pub open spec fn repr_spec(v: u8, sym: Symbology) -> Seq<char>
    recommends
        is_plain(v, sym),
{
    match sym {
        Symbology::A => {
            if v < 64 {
                seq![(((v + 32) as u8) as char)]
            } else {
                seq![(((v - 64) as u8) as char)]
            }
        },
        Symbology::B => seq![(((v + 32) as u8) as char)],
        Symbology::C => seq![
            ((((v / 10) + 48) as u8) as char),
            ((((v % 10) + 48) as u8) as char),
        ],
    }
}

/// States of the decode machine: one per symbology, plus the transient
/// states entered by a shift code, under which exactly one symbol is
/// interpreted in the other symbology.
#[derive(PartialEq, Eq, Structural, Debug, Clone, Copy)]
pub enum Parser {
    /// Decoding under symbology A.
    A,
    /// Decoding under symbology B.
    B,
    /// Decoding under symbology C.
    C,
    /// One symbol is interpreted under A, then control returns to B.
    ShiftA,
    /// One symbol is interpreted under B, then control returns to A.
    ShiftB,
}

/// The decode state that a datum starts in, per its start symbology.
pub open spec fn initial_state(sym: Symbology) -> Parser {
    match sym {
        Symbology::A => Parser::A,
        Symbology::B => Parser::B,
        Symbology::C => Parser::C,
    }
}

/// Outcome of one step of the decode machine.
pub enum Step {
    /// Continue in the given state, appending the given characters.
    Next(Parser, Seq<char>),
    /// The stop code: decoding terminates immediately.
    Halt,
    /// The symbol is not valid in the current state.
    Reject,
}

/// The transition function of the decode machine: in state `st`, reading
/// symbol value `v`, what happens.
///
/// Plain symbols append their characters and keep the state; switch codes
/// change the symbology; a shift code enters a transient state; the
/// function codes are consumed without output; the stop code halts; any
/// other value, and any non-plain symbol right after a shift, is rejected.
pub open spec fn step(st: Parser, v: u8) -> Step {
    match st {
        Parser::A => {
            if v < 96 {
                Step::Next(Parser::A, repr_spec(v, Symbology::A))
            } else if v == 96 || v == 97 || v == 101 || v == 102 {
                Step::Next(Parser::A, Seq::empty())
            } else if v == 98 {
                Step::Next(Parser::ShiftB, Seq::empty())
            } else if v == 99 {
                Step::Next(Parser::C, Seq::empty())
            } else if v == 100 {
                Step::Next(Parser::B, Seq::empty())
            } else if v == 106 {
                Step::Halt
            } else {
                Step::Reject
            }
        },
        Parser::B => {
            if v < 96 {
                Step::Next(Parser::B, repr_spec(v, Symbology::B))
            } else if v == 96 || v == 97 || v == 100 || v == 102 {
                Step::Next(Parser::B, Seq::empty())
            } else if v == 98 {
                Step::Next(Parser::ShiftA, Seq::empty())
            } else if v == 99 {
                Step::Next(Parser::C, Seq::empty())
            } else if v == 101 {
                Step::Next(Parser::A, Seq::empty())
            } else if v == 106 {
                Step::Halt
            } else {
                Step::Reject
            }
        },
        Parser::C => {
            if v < 100 {
                Step::Next(Parser::C, repr_spec(v, Symbology::C))
            } else if v == 102 {
                Step::Next(Parser::C, Seq::empty())
            } else if v == 100 {
                Step::Next(Parser::B, Seq::empty())
            } else if v == 101 {
                Step::Next(Parser::A, Seq::empty())
            } else if v == 106 {
                Step::Halt
            } else {
                Step::Reject
            }
        },
        Parser::ShiftA => {
            if v < 96 {
                Step::Next(Parser::B, repr_spec(v, Symbology::A))
            } else {
                Step::Reject
            }
        },
        Parser::ShiftB => {
            if v < 96 {
                Step::Next(Parser::A, repr_spec(v, Symbology::B))
            } else {
                Step::Reject
            }
        },
    }
}

/// Runs the decode machine from state `st` over the symbol values `vals`:
/// the decoded characters, or the first rejected symbol value.
pub open spec fn decode_symbols(st: Parser, vals: Seq<u8>) -> Result<Seq<char>, u8>
    decreases vals.len(),
{
    if vals.len() == 0 {
        Ok(Seq::empty())
    } else {
        match step(st, vals.first()) {
            Step::Next(st2, out) => match decode_symbols(st2, vals.drop_first()) {
                Ok(rest) => Ok(out + rest),
                Err(v) => Err(v),
            },
            Step::Halt => Ok(Seq::empty()),
            Step::Reject => Err(vals.first()),
        }
    }
}

/// Splits a raw symbol sequence into its frame: the start symbology, the
/// interior data values, and the check value.  A frame needs at least four
/// symbols (start, one data symbol, check, stop), a recognized start code
/// first and the stop code last.
pub open spec fn frame(vals: Seq<u8>) -> Option<(Symbology, Seq<u8>, u8)> {
    if vals.len() >= 4 && vals.last() == 106 && is_start(vals.first()) {
        Some(
            (
                symbology_of_start(vals.first()),
                vals.subrange(1, vals.len() - 2),
                vals[vals.len() - 2],
            ),
        )
    } else {
        None
    }
}

/// The weighted sum that the checksum is reduced from: the start code's
/// value plus each data value times its 1-indexed position.
pub open spec fn weighted_sum(sym: Symbology, data: Seq<u8>) -> int
    decreases data.len(),
{
    if data.len() == 0 {
        start_value(sym) as int
    } else {
        weighted_sum(sym, data.drop_last()) + data.last() * data.len()
    }
}

/// The check value owed by a frame: the weighted sum modulo 103.
pub open spec fn check_value(sym: Symbology, data: Seq<u8>) -> int {
    weighted_sum(sym, data) % 103
}

/// Checksum validity of a raw symbol sequence: it frames, and the declared
/// check value equals the computed one.  A sequence that does not frame is
/// never valid.
pub open spec fn checksum_ok(vals: Seq<u8>) -> bool {
    match frame(vals) {
        Some((sym, data, check)) => check as int == check_value(sym, data),
        None => false,
    }
}

/// Relies on `String::push` from std: it appends the given character to
/// the end of the string.
pub assume_specification[ String::push ](s: &mut String, ch: char)
    ensures
        final(s)@ == old(s)@.push(ch),
;

/// Renders the plain symbol value `v` as its character (or digit pair)
/// under `sym`.
pub(crate) fn render(v: u8, sym: Symbology) -> (r: String)
    requires
        is_plain(v, sym),
    ensures
        r@ == repr_spec(v, sym),
{
    let mut s = String::new();
    match sym {
        Symbology::A => {
            if v < 64 {
                s.push((v + 32) as char);
            } else {
                s.push((v - 64) as char);
            }
        },
        Symbology::B => {
            s.push((v + 32) as char);
        },
        Symbology::C => {
            s.push((v / 10 + 48) as char);
            s.push((v % 10 + 48) as char);
        },
    }
    proof {
        assert(s@ =~= repr_spec(v, sym));
    }
    s
}

/// The contract that any representation of Code128 symbols satisfies: it
/// knows its numeric value in `[0, 106]`, the structural symbols can be
/// produced in it, and a plain symbol renders itself under a symbology.
/// The framing, checksum and decode logic is generic over this contract.
pub trait Encoding: Sized {
    /// The numeric value in `[0, 106]` that this symbol stands for (a raw
    /// representation out of that range keeps its own value).
    spec fn value(&self) -> u8;

    /// The string this plain symbol denotes under the given symbology.
    fn repr(&self, sym: Symbology) -> (r: String)
        requires
            is_plain(self.value(), sym),
        ensures
            r@ == repr_spec(self.value(), sym),
    ;

    /// The stop symbol (value 106).
    fn stop() -> (r: Self)
        ensures
            r.value() == 106,
    ;

    /// The symbol that switches the active symbology to `sym`.
    fn switch(sym: Symbology) -> (r: Self)
        ensures
            r.value() == switch_value(sym),
    ;

    /// The start symbol for `sym`.
    fn start(sym: Symbology) -> (r: Self)
        ensures
            r.value() == start_value(sym),
    ;

    /// The shift symbol (value 98): the next symbol alone uses the other
    /// symbology.
    fn shift() -> (r: Self)
        ensures
            r.value() == 98,
    ;

    /// Function code 1 (value 102), consumed without output.
    fn fnc1() -> (r: Self)
        ensures
            r.value() == 102,
    ;

    /// Function code 2 (value 97), consumed without output.
    fn fnc2() -> (r: Self)
        ensures
            r.value() == 97,
    ;

    /// Function code 3 (value 96), consumed without output.
    fn fnc3() -> (r: Self)
        ensures
            r.value() == 96,
    ;

    /// Function code 4: it aliases the switch codes 101 (under A) and 100
    /// (under B), and does not exist under C.
    fn fnc4(sym: Symbology) -> (r: Option<Self>)
        ensures
            match sym {
                Symbology::A => r matches Some(e) && e.value() == 101,
                Symbology::B => r matches Some(e) && e.value() == 100,
                Symbology::C => r is None,
            },
    ;

    /// Conversion from a raw numeric value; total, and the identity on
    /// `[0, 106]`.
    fn from_u8(u: u8) -> (r: Self)
        ensures
            u <= 106 ==> r.value() == u,
    ;

    /// The numeric value, for positional checksum calculation.
    fn as_u8(&self) -> (r: u8)
        ensures
            r == self.value(),
    ;
}

/// The numeric values of a sequence of symbols.
pub open spec fn values_of<E: Encoding>(s: Seq<E>) -> Seq<u8> {
    s.map_values(|e: E| e.value())
}

/// Taking values commutes with taking a subrange.
proof fn lemma_values_subrange<E: Encoding>(s: Seq<E>, i: int, j: int)
    requires
        0 <= i <= j <= s.len(),
    ensures
        values_of(s.subrange(i, j)) =~= values_of(s).subrange(i, j),
{
}

/// Code128 barcode format over any symbol representation satisfying the
/// [`Encoding`] contract: the full raw sequence of a scanned datum.
pub struct Code128<'a, E>(pub &'a [E]);

impl<'a, E: Encoding> Code128<'a, E> {
    /// The numeric values of the raw sequence.
    pub open spec fn values(&self) -> Seq<u8> {
        values_of(self.0@)
    }

    /// If the sequence has a valid frame, returns the parts of the datum:
    /// the symbology named by the start code, the interior data symbols,
    /// and the check symbol.  Performs no checksum validation, only shape
    /// validation.
    pub fn data(&self) -> (r: Option<(Symbology, &'a [E], &'a E)>)
        ensures
            match r {
                Some((sym, symbols, check)) => {
                    &&& frame(self.values()) == Some(
                        (sym, values_of(symbols@), check.value()),
                    )
                    &&& symbols@ == self.0@.subrange(1, self.0@.len() - 2)
                    &&& *check == self.0@[self.0@.len() - 2]
                },
                None => frame(self.values()) is None,
            },
    {
        let n = self.0.len();
        if n < 4 {
            return None;
        }
        let last = slice_index_get(self.0, n - 1);
        if last.as_u8() != 106 {
            return None;
        }
        let first = slice_index_get(self.0, 0);
        let sv = first.as_u8();
        let sym = if sv == 103 {
            Symbology::A
        } else if sv == 104 {
            Symbology::B
        } else if sv == 105 {
            Symbology::C
        } else {
            return None;
        };
        let check = slice_index_get(self.0, n - 2);
        let symbols = slice_subrange(self.0, 1, n - 2);
        proof {
            lemma_values_subrange(self.0@, 1, self.0@.len() - 2);
        }
        Some((sym, symbols, check))
    }
}

/// One step of reducing the weighted sum modulo 103: the accumulator may
/// stand in for the sum, and the position may be reduced as well.
proof fn lemma_mod_step(ws: int, acc: int, v: int, p: int)
    requires
        0 <= acc < 103,
        acc == ws % 103,
        0 <= v,
        1 <= p,
    ensures
        (acc + v * (p % 103)) % 103 == (ws + v * p) % 103,
{
    vstd::arithmetic::div_mod::lemma_mul_mod_noop_right(v, p, 103);
    vstd::arithmetic::div_mod::lemma_add_mod_noop(ws, v * p, 103);
    vstd::arithmetic::div_mod::lemma_add_mod_noop(acc, v * (p % 103), 103);
    vstd::arithmetic::div_mod::lemma_small_mod(acc as nat, 103nat);
}

/// Computes the check value owed by a framed datum: the start code's value
/// plus each data value times its 1-indexed position, reduced modulo 103.
pub fn compute_check<E: Encoding>(sym: Symbology, symbols: &[E]) -> (r: u8)
    ensures
        r as int == check_value(sym, values_of(symbols@)),
        r < 103,
{
    let ghost vals = values_of(symbols@);
    let mut acc: u32 = match sym {
        Symbology::A => 0,
        Symbology::B => 1,
        Symbology::C => 2,
    };
    proof {
        assert(vals.take(0) =~= Seq::<u8>::empty());
        vstd::arithmetic::div_mod::lemma_small_mod((start_value(sym) - 103) as nat, 103nat);
        vstd::arithmetic::div_mod::lemma_mod_add_multiples_vanish(start_value(sym) - 103, 103);
    }
    let mut i: usize = 0;
    while i < symbols.len()
        invariant
            0 <= i <= symbols@.len(),
            vals == values_of(symbols@),
            vals.len() == symbols@.len(),
            acc < 103,
            acc as int == weighted_sum(sym, vals.take(i as int)) % 103,
        decreases symbols@.len() - i,
    {
        let v = slice_index_get(symbols, i).as_u8();
        let w: u32 = ((i + 1) % 103) as u32;
        proof {
            let prefix = vals.take(i as int + 1);
            assert(prefix.drop_last() =~= vals.take(i as int));
            assert(prefix.last() == vals[i as int]);
            assert(vals[i as int] == symbols@[i as int].value());
            lemma_mod_step(
                weighted_sum(sym, vals.take(i as int)),
                acc as int,
                v as int,
                i as int + 1,
            );
        }
        assert((v as u32) * w <= 255 * 102) by (nonlinear_arith)
            requires
                v as u32 <= 255,
                w <= 102,
        ;
        acc = (acc + (v as u32) * w) % 103;
        i = i + 1;
    }
    proof {
        assert(vals.take(vals.len() as int) =~= vals);
    }
    acc as u8
}

impl<'a, E: Encoding> Code128<'a, E> {
    /// Verify data integrity: true exactly when the sequence frames and
    /// the declared check symbol's value equals the weighted modulo-103
    /// checksum of the start code and the data symbols.
    pub fn checksum(&self) -> (r: bool)
        ensures
            r == checksum_ok(self.values()),
    {
        match self.data() {
            None => false,
            Some((sym, symbols, check)) => {
                let expected = E::from_u8(compute_check(sym, symbols));
                expected.as_u8() == check.as_u8()
            },
        }
    }
}

/// The result `r` with the characters `pre` prepended to its success
/// value.
spec fn with_prefix(pre: Seq<char>, r: Result<Seq<char>, u8>) -> Result<Seq<char>, u8> {
    match r {
        Ok(cs) => Ok(pre + cs),
        Err(v) => Err(v),
    }
}

/// Prefixes compose: prepending `pre` and then `out` is prepending their
/// concatenation.
proof fn lemma_with_prefix_assoc(pre: Seq<char>, out: Seq<char>, r: Result<Seq<char>, u8>)
    ensures
        with_prefix(pre, with_prefix(out, r)) == with_prefix(pre + out, r),
{
    match r {
        Ok(cs) => {
            assert(pre + (out + cs) =~= (pre + out) + cs);
        },
        Err(_) => {
        },
    }
}

/// Runs the decode state machine from state `start` over `symbols`,
/// appending each plain symbol's reading under the active symbology and
/// following the directive codes; the stop code terminates decoding
/// immediately.  Returns the decoded text, or the value of the first
/// symbol that is not valid where it stands.
pub fn run_decode<E: Encoding>(start: Parser, symbols: &[E]) -> (r: Result<String, u8>)
    ensures
        match decode_symbols(start, values_of(symbols@)) {
            Ok(cs) => r matches Ok(s) && s@ == cs,
            Err(v) => r == Err::<String, u8>(v),
        },
{
    let ghost vals = values_of(symbols@);
    let mut decoded = String::new();
    let mut st = start;
    let mut i: usize = 0;
    proof {
        assert(vals.skip(0) =~= vals);
        match decode_symbols(start, vals) {
            Ok(cs) => {
                assert(Seq::<char>::empty() + cs =~= cs);
            },
            Err(_) => {
            },
        }
    }
    while i < symbols.len()
        invariant
            0 <= i <= symbols@.len(),
            vals == values_of(symbols@),
            vals.len() == symbols@.len(),
            decode_symbols(start, vals) == with_prefix(
                decoded@,
                decode_symbols(st, vals.skip(i as int)),
            ),
        decreases symbols@.len() - i,
    {
        let e = slice_index_get(symbols, i);
        let v = e.as_u8();
        proof {
            let rest = vals.skip(i as int);
            assert(rest.first() == vals[i as int]);
            assert(rest.drop_first() =~= vals.skip(i as int + 1));
            assert(vals[i as int] == symbols@[i as int].value());
            match step(st, vals[i as int]) {
                Step::Next(st2, out) => {
                    lemma_with_prefix_assoc(
                        decoded@,
                        out,
                        decode_symbols(st2, vals.skip(i as int + 1)),
                    );
                    assert(decoded@ + Seq::<char>::empty() =~= decoded@);
                },
                Step::Halt => {
                    assert(decoded@ + Seq::<char>::empty() =~= decoded@);
                },
                Step::Reject => {
                },
            }
        }
        match st {
            Parser::A => {
                if v < 96 {
                    let piece = e.repr(Symbology::A);
                    decoded.append(piece.as_str());
                } else if v == 96 || v == 97 || v == 101 || v == 102 {
                    // function codes: consumed, no output, no state change
                } else if v == 98 {
                    st = Parser::ShiftB;
                } else if v == 99 {
                    st = Parser::C;
                } else if v == 100 {
                    st = Parser::B;
                } else if v == 106 {
                    return Ok(decoded);
                } else {
                    return Err(v);
                }
            },
            Parser::B => {
                if v < 96 {
                    let piece = e.repr(Symbology::B);
                    decoded.append(piece.as_str());
                } else if v == 96 || v == 97 || v == 100 || v == 102 {
                    // function codes: consumed, no output, no state change
                } else if v == 98 {
                    st = Parser::ShiftA;
                } else if v == 99 {
                    st = Parser::C;
                } else if v == 101 {
                    st = Parser::A;
                } else if v == 106 {
                    return Ok(decoded);
                } else {
                    return Err(v);
                }
            },
            Parser::C => {
                if v < 100 {
                    let piece = e.repr(Symbology::C);
                    decoded.append(piece.as_str());
                } else if v == 102 {
                    // function code: consumed, no output, no state change
                } else if v == 100 {
                    st = Parser::B;
                } else if v == 101 {
                    st = Parser::A;
                } else if v == 106 {
                    return Ok(decoded);
                } else {
                    return Err(v);
                }
            },
            Parser::ShiftA => {
                if v < 96 {
                    let piece = e.repr(Symbology::A);
                    decoded.append(piece.as_str());
                    st = Parser::B;
                } else {
                    return Err(v);
                }
            },
            Parser::ShiftB => {
                if v < 96 {
                    let piece = e.repr(Symbology::B);
                    decoded.append(piece.as_str());
                    st = Parser::A;
                } else {
                    return Err(v);
                }
            },
        }
        i = i + 1;
    }
    proof {
        assert(vals.skip(vals.len() as int) =~= Seq::<u8>::empty());
        assert(decoded@ + Seq::<char>::empty() =~= decoded@);
    }
    Ok(decoded)
}

impl<'a, E: Encoding> Code128<'a, E> {
    /// Decode the datum to the text it encodes.
    ///
    /// A sequence shorter than four symbols yields
    /// [`Error::InvalidLength`] with its actual length; one that does not
    /// frame yields [`Error::BadFormat`]; one whose interior symbols the
    /// state machine rejects yields [`Error::DecodeErr`].  Otherwise the
    /// decoded string is returned.  No checksum validation is performed.
    pub fn decode(&self) -> (r: Result<String, Error>)
        ensures
            self.0@.len() < 4 ==> r == Err::<String, Error>(
                Error::InvalidLength(self.0@.len() as usize),
            ),
            self.0@.len() >= 4 && frame(self.values()) is None ==> (r matches Err(e)
                && e matches Error::BadFormat(_)),
            frame(self.values()) matches Some((sym, data, check)) ==> match decode_symbols(
                initial_state(sym),
                data,
            ) {
                Ok(cs) => r matches Ok(s) && s@ == cs,
                Err(v) => r matches Err(e) && e matches Error::DecodeErr(_),
            },
    {
        if self.0.len() < 4 {
            return Err(Error::InvalidLength(self.0.len()));
        }
        match self.data() {
            None => Err(Error::BadFormat("unrecognized format".to_string())),
            Some((sym, symbols, _check)) => {
                let st = match sym {
                    Symbology::A => Parser::A,
                    Symbology::B => Parser::B,
                    Symbology::C => Parser::C,
                };
                match run_decode(st, symbols) {
                    Ok(s) => Ok(s),
                    Err(_v) => Err(Error::DecodeErr("unrecognized encoding".to_string())),
                }
            },
        }
    }
}

impl<'a, E: Encoding> Format for Code128<'a, E> {
    /// Verify data integrity through the [`Format`] abstraction.
    fn checksum(&self) -> bool {
        Code128::checksum(self)
    }
}

impl<'a, E: Encoding> Decode<String> for Code128<'a, E> {
    /// Convert the barcode representation to a string through the
    /// [`Decode`] abstraction.
    fn decode(&self) -> Result<String, Error> {
        Code128::decode(self)
    }
}

/// A sequence of fewer than four symbols has no frame and no valid
/// checksum.
pub proof fn lemma_short_sequence_invalid(vals: Seq<u8>)
    requires
        vals.len() < 4,
    ensures
        frame(vals) is None,
        !checksum_ok(vals),
{
}

/// Framing recovers exactly the parts that a well-shaped datum is
/// assembled from: a start code, at least one data value, the check value,
/// and the stop code; and such a datum's checksum is valid exactly when
/// the declared check value is the computed one.
pub proof fn lemma_frame_of_parts(sym: Symbology, data: Seq<u8>, check: u8)
    requires
        data.len() >= 1,
    ensures
        frame(seq![start_value(sym)] + data + seq![check, 106u8]) == Some((sym, data, check)),
        checksum_ok(seq![start_value(sym)] + data + seq![check, 106u8]) == (check as int
            == check_value(sym, data)),
{
    let vals = seq![start_value(sym)] + data + seq![check, 106u8];
    assert(vals.last() == 106);
    assert(vals.first() == start_value(sym));
    assert(vals[vals.len() - 2] == check);
    assert(vals.subrange(1, vals.len() - 2) =~= data);
}

/// Editing one data value shifts the weighted sum by the value difference
/// times the position weight.
proof fn lemma_weighted_sum_update(sym: Symbology, data: Seq<u8>, i: int, v: u8)
    requires
        0 <= i < data.len(),
    ensures
        weighted_sum(sym, data.update(i, v)) == weighted_sum(sym, data) + (v - data[i]) * (i + 1),
    decreases data.len(),
{
    let d2 = data.update(i, v);
    if i == data.len() - 1 {
        assert(d2.drop_last() =~= data.drop_last());
        assert((v - data[i]) * (i + 1) == v * (i + 1) - data[i] * (i + 1)) by (nonlinear_arith);
    } else {
        assert(d2.drop_last() =~= data.drop_last().update(i, v));
        lemma_weighted_sum_update(sym, data.drop_last(), i, v);
    }
}

/// The checksum is a function of the datum alone, and it separates
/// single-symbol edits: replacing the data value at position `i` by `v`
/// changes the check value whenever the weighted difference
/// `(v - data[i]) * (i + 1)` is not a multiple of 103.
pub proof fn lemma_single_edit_changes_checksum(sym: Symbology, data: Seq<u8>, i: int, v: u8)
    requires
        0 <= i < data.len(),
        ((v - data[i]) * (i + 1)) % 103 != 0,
    ensures
        check_value(sym, data.update(i, v)) != check_value(sym, data),
{
    lemma_weighted_sum_update(sym, data, i, v);
    let ws = weighted_sum(sym, data);
    let d = (v - data[i]) * (i + 1);
    let a = ws % 103;
    let b = d % 103;
    vstd::arithmetic::div_mod::lemma_mod_bound(ws, 103);
    vstd::arithmetic::div_mod::lemma_mod_bound(d, 103);
    vstd::arithmetic::div_mod::lemma_add_mod_noop(ws, d, 103);
    if a + b < 103 {
        vstd::arithmetic::div_mod::lemma_small_mod((a + b) as nat, 103nat);
    } else {
        vstd::arithmetic::div_mod::lemma_mod_add_multiples_vanish(a + b - 103, 103);
        vstd::arithmetic::div_mod::lemma_small_mod((a + b - 103) as nat, 103nat);
    }
}

} // verus!
