use feather_code::code128::{Code128, Encoding, Symbology};
use feather_code::datum::Code128 as Datum;
use feather_code::encodings::Pattern;
use feather_code::format::Error;

#[test]
fn short_data_is_invalid() {
    let empty: [u8; 0] = [];
    assert_eq!(Code128(&empty).data(), None);
    assert!(!Code128(&empty).checksum());

    let one: [u8; 1] = [103];
    assert_eq!(Code128(&one).data(), None);
    assert!(!Code128(&one).checksum());

    let two: [u8; 2] = [103, 106];
    assert_eq!(Code128(&two).data(), None);
    assert!(!Code128(&two).checksum());

    // start, check and stop with no data symbol: still too short to frame,
    // even though the check value would match
    let three: [u8; 3] = [103, 0, 106];
    assert_eq!(Code128(&three).data(), None);
    assert!(!Code128(&three).checksum());
    assert_eq!(Code128(&three).decode(), Err(Error::InvalidLength(3)));
}

#[test]
fn numeric_round_trip() {
    for v in 0u8..=255 {
        let expected = if v < 106 { v } else { 106 };
        assert_eq!(Pattern::from(v).as_u8(), expected);
        assert_eq!(<Pattern as Encoding>::from_u8(v).as_u8(), expected);
    }
    // the raw u8 representation converts by identity
    for v in 0u8..=255 {
        assert_eq!(<u8 as Encoding>::from_u8(v), v);
    }
}

#[test]
fn checksum_deterministic() {
    let code = Datum {
        start: Symbology::A,
        symbols: vec![Pattern::C48, Pattern::C42, Pattern::C42, Pattern::C17],
        checksum: Pattern::C0,
    };
    assert_eq!(code.calc_checksum(), code.calc_checksum());

    let raw: [u8; 10] = [103, 48, 42, 42, 17, 18, 19, 35, 54, 106];
    assert_eq!(Code128(&raw).checksum(), Code128(&raw).checksum());
}

#[test]
fn single_edit_changes_checksum() {
    let baseline = Datum {
        start: Symbology::A,
        symbols: vec![
            Pattern::C48,
            Pattern::C42,
            Pattern::C42,
            Pattern::C17,
            Pattern::C18,
            Pattern::C19,
            Pattern::C35,
        ],
        checksum: Pattern::C54,
    };
    // edit each position in turn by one step: the check value moves
    for i in 0..baseline.symbols.len() {
        let mut symbols = baseline.symbols.clone();
        symbols[i] = Pattern::from(symbols[i].as_u8() + 1);
        let edited = Datum { start: Symbology::A, symbols, checksum: Pattern::C54 };
        assert_ne!(edited.calc_checksum(), baseline.calc_checksum());
        assert!(!edited.verify_checksum());
    }
}

#[test]
fn framing_rejects_bad_boundaries() {
    // no recognized start code
    let bad_start: [u8; 4] = [99, 48, 15, 106];
    assert_eq!(Code128(&bad_start).data(), None);
    assert!(!Code128(&bad_start).checksum());
    assert!(matches!(Code128(&bad_start).decode(), Err(Error::BadFormat(_))));

    // no stop code at the end
    let bad_stop: [u8; 4] = [103, 48, 15, 99];
    assert_eq!(Code128(&bad_stop).data(), None);
    assert!(matches!(Code128(&bad_stop).decode(), Err(Error::BadFormat(_))));
}

#[test]
fn decode_rejects_stray_symbols() {
    // a start code inside the data is not valid in any state
    let stray_start: [u8; 4] = [103, 103, 15, 106];
    assert!(matches!(Code128(&stray_start).decode(), Err(Error::DecodeErr(_))));

    // a shift must be followed by a plain symbol, not another shift
    let double_shift: [u8; 6] = [104, 98, 98, 15, 0, 106];
    assert!(matches!(Code128(&double_shift).decode(), Err(Error::DecodeErr(_))));

    let datum = Datum {
        start: Symbology::C,
        symbols: vec![Pattern::C42, Pattern::C103],
        checksum: Pattern::C0,
    };
    assert!(matches!(datum.decode(), Err(Error::DecodeErr(_))));
}

#[test]
fn mixed_symbology_decoding() {
    // symbology A maps 64-95 to the low control characters: 64 is NUL
    let control: [u8; 4] = [103, 64, 64, 106];
    assert!(Code128(&control).checksum());
    assert_eq!(Code128(&control).decode().unwrap(), "\u{0}".to_string());

    // function codes are consumed without output
    let fncs: [u8; 7] = [103, 96, 97, 17, 102, 21, 106];
    assert_eq!(Code128(&fncs).decode().unwrap(), "1".to_string());

    // the stop code ends decoding even when it stands mid-sequence
    let early_stop: [u8; 6] = [103, 17, 106, 18, 19, 106];
    assert_eq!(Code128(&early_stop).decode().unwrap(), "1".to_string());
}

#[test]
fn structural_symbols() {
    assert_eq!(<u8 as Encoding>::stop(), 106);
    assert_eq!(<u8 as Encoding>::shift(), 98);
    assert_eq!(<u8 as Encoding>::fnc1(), 102);
    assert_eq!(<u8 as Encoding>::fnc2(), 97);
    assert_eq!(<u8 as Encoding>::fnc3(), 96);
    assert_eq!(<u8 as Encoding>::start(Symbology::A), 103);
    assert_eq!(<u8 as Encoding>::start(Symbology::B), 104);
    assert_eq!(<u8 as Encoding>::start(Symbology::C), 105);
    assert_eq!(<u8 as Encoding>::switch(Symbology::A), 101);
    assert_eq!(<u8 as Encoding>::switch(Symbology::B), 100);
    assert_eq!(<u8 as Encoding>::switch(Symbology::C), 99);
    assert_eq!(<u8 as Encoding>::fnc4(Symbology::A), Some(101));
    assert_eq!(<u8 as Encoding>::fnc4(Symbology::B), Some(100));
    assert_eq!(<u8 as Encoding>::fnc4(Symbology::C), None);

    assert_eq!(<Pattern as Encoding>::stop(), Pattern::C106);
    assert_eq!(<Pattern as Encoding>::shift(), Pattern::C98);
    assert_eq!(<Pattern as Encoding>::fnc1(), Pattern::C102);
    assert_eq!(<Pattern as Encoding>::fnc2(), Pattern::C97);
    assert_eq!(<Pattern as Encoding>::fnc3(), Pattern::C96);
    assert_eq!(<Pattern as Encoding>::start(Symbology::B), Pattern::C104);
    assert_eq!(<Pattern as Encoding>::switch(Symbology::C), Pattern::C99);
    assert_eq!(<Pattern as Encoding>::fnc4(Symbology::A), Some(Pattern::C101));
    assert_eq!(<Pattern as Encoding>::fnc4(Symbology::C), None);
}

#[test]
fn symbol_representations() {
    // plain symbols render under each symbology: 16 is '0' under A and B
    assert_eq!(Pattern::C16.repr(Symbology::A), "0".to_string());
    assert_eq!(16u8.repr(Symbology::B), "0".to_string());
    // under C every plain value renders as its two decimal digits
    assert_eq!(Pattern::C7.repr(Symbology::C), "07".to_string());
    assert_eq!(99u8.repr(Symbology::C), "99".to_string());
    // under B the high values reach the full printable range
    assert_eq!(95u8.repr(Symbology::B), "\u{7f}".to_string());
    // under A the high values wrap to the control characters
    assert_eq!(95u8.repr(Symbology::A), "\u{1f}".to_string());
}
