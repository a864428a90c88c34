use feather_code::code128::{Code128, Symbology};
use feather_code::encodings::Pattern;

#[test]
fn checksum() {
    assert!(Code128(
        &[
            Pattern::C103,
            Pattern::C48,
            Pattern::C42,
            Pattern::C42,
            Pattern::C17,
            Pattern::C18,
            Pattern::C19,
            Pattern::C35,
            Pattern::C54,
            Pattern::C106,
        ],
    ).checksum());

    assert!(Code128(
        &[
            Pattern::C105,
            Pattern::C102,
            Pattern::C42,
            Pattern::C18,
            Pattern::C40,
            Pattern::C20,
            Pattern::C50,
            Pattern::C101,
            Pattern::C16,
            Pattern::C92,
            Pattern::C106,
        ],
    ).checksum());
    let raw: [u8; 11] = [105, 102, 42, 18, 40, 20, 50, 101, 16, 92, 106];
    assert!(Code128(&raw).checksum());
}

#[test]
fn decode() {
    let pjj123_c: [u8; 10] = [103, 48, 42, 42, 17, 18, 19, 35, 54, 106];

    assert_eq!(Code128(&pjj123_c).decode().unwrap(), "PJJ123C".to_string());

    let country_code: [u8; 11] = [105, 102, 42, 18, 40, 20, 50, 101, 16, 92, 106];

    assert_eq!(Code128(&country_code).decode().unwrap(), "42184020500".to_string());

    let hello_world: [u8; 14] = [104, 40, 69, 76, 76, 79, 0, 55, 79, 82, 76, 68, 43, 106];

    assert_eq!(Code128(&hello_world).decode().unwrap(), "Hello World".to_string());

    let shift_codes: [u8; 12] = [103, 51, 40, 98, 73, 38, 52, 100, 98, 1, 34, 106];

    assert_eq!(Code128(&shift_codes).decode().unwrap(), "SHiFT!".to_string())
}

#[test]
fn split_data() {
    let symbols = [
        Pattern::C103,
        Pattern::C48,
        Pattern::C42,
        Pattern::C42,
        Pattern::C17,
        Pattern::C18,
        Pattern::C19,
        Pattern::C35,
        Pattern::C54,
        Pattern::C106,
    ];
    let code = Code128(&symbols);

    assert_eq!(
        code.data(),
        Some((
            Symbology::A,
            [
                Pattern::C48,
                Pattern::C42,
                Pattern::C42,
                Pattern::C17,
                Pattern::C18,
                Pattern::C19,
                Pattern::C35,
            ]
            .as_ref(),
            &Pattern::C54,
        )),
    );

    let symbols = [Pattern::C103];
    let code = Code128(&symbols);

    assert_eq!(code.data(), None);

    let symbols = [Pattern::C103, Pattern::C106];
    let code = Code128(&symbols);

    assert_eq!(code.data(), None);

    let symbols = [Pattern::C103, Pattern::C48, Pattern::C15, Pattern::C106];
    let code = Code128(&symbols);

    assert_eq!(
        code.data(),
        Some((Symbology::A, [Pattern::C48].as_ref(), &Pattern::C15)),
    );
}
