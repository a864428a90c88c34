use feather_code::code128::Symbology;
use feather_code::datum::Code128;
use feather_code::encodings::Pattern;

#[test]
fn checksum_works() {
    let code = Code128 {
        start: Symbology::A,
        symbols: vec![
            Pattern::C48,
            Pattern::C42,
            Pattern::C42,
            Pattern::C17,
            Pattern::C18,
            Pattern::C19,
            Pattern::C35,
        ],
        checksum: Pattern::C54,
    };

    assert_eq!(code.calc_checksum(), Pattern::C54);
    assert!(code.verify_checksum());

    let code = Code128 {
        start: Symbology::C,
        symbols: vec![
            Pattern::C102,
            Pattern::C42,
            Pattern::C18,
            Pattern::C40,
            Pattern::C20,
            Pattern::C50,
            Pattern::C101,
            Pattern::C16,
        ],
        checksum: Pattern::C92,
    };

    assert_eq!(code.calc_checksum(), Pattern::C92);
    assert!(code.verify_checksum());
}

#[test]
fn to_string_conversion() {
    let pjj123_c = Code128 {
        start: Symbology::A,
        symbols: vec![
            Pattern::C48,
            Pattern::C42,
            Pattern::C42,
            Pattern::C17,
            Pattern::C18,
            Pattern::C19,
            Pattern::C35,
        ],
        checksum: Pattern::C54,
    };

    assert_eq!(pjj123_c.decode().unwrap(), "PJJ123C".to_string());

    let country_code = Code128 {
        start: Symbology::C,
        symbols: vec![
            Pattern::C102,
            Pattern::C42,
            Pattern::C18,
            Pattern::C40,
            Pattern::C20,
            Pattern::C50,
            Pattern::C101,
            Pattern::C16,
        ],
        checksum: Pattern::C92,
    };

    assert_eq!(country_code.decode().unwrap(), "42184020500".to_string());

    let hello_world = Code128 {
        start: Symbology::B,
        symbols: vec![
            Pattern::C40,
            Pattern::C69,
            Pattern::C76,
            Pattern::C76,
            Pattern::C79,
            Pattern::C0,
            Pattern::C55,
            Pattern::C79,
            Pattern::C82,
            Pattern::C76,
            Pattern::C68,
        ],
        checksum: Pattern::C43,
    };

    assert_eq!(hello_world.decode().unwrap(), "Hello World".to_string());
}
