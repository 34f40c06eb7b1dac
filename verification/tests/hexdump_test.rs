use cybergarage::hexdump::Decoder;

#[test]
fn decode_from() {
    struct Test {
        log: &'static str,
        expected_bytes: &'static [u8],
    }

    // The decoder recognizes no line format yet, so well-formed hexdump
    // text decodes to no bytes.
    let tests = vec![
        Test { log: "", expected_bytes: &[] },
        Test {
            log: "00000000  de ad be ef 00 01 02 03  04 05 06 07 08 09 0a 0b\n",
            expected_bytes: &[],
        },
    ];

    for test in tests {
        let hexdump_bytes = Decoder::from_str(test.log);
        assert!(hexdump_bytes.is_ok());
        if hexdump_bytes.is_err() {
            return;
        }

        let hexdump_bytes = hexdump_bytes.unwrap();
        assert_eq!(test.expected_bytes.len(), hexdump_bytes.len());
        if test.expected_bytes.len() != hexdump_bytes.len() {
            return;
        }
        for n in 0..test.expected_bytes.len() {
            assert_eq!(test.expected_bytes[n], hexdump_bytes[n]);
        }
    }
}

#[test]
fn decode_from_bytes() {
    assert_eq!(Decoder::from_bytes(b"00000000  00 01\n").unwrap(), Vec::<u8>::new());
    // Bytes that are not valid UTF-8 are rejected.
    assert!(Decoder::from_bytes(&[0xFF, 0xFE, 0x80]).is_err());
}
