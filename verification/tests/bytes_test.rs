use cybergarage::bytes::Bytes;

#[test]
fn bytes_u32_from() {
    let mut buf: [u8; 1] = [0; 1];
    for n in 0..=0xFF {
        Bytes::from_u32(n, &mut buf);
        assert_eq!(n, Bytes::to_u32(&buf));
    }

    let mut buf2: [u8; 2] = [0; 2];
    for n in (0..=0xFFFF).step_by(0xFFFF / 0xFF) {
        Bytes::from_u32(n, &mut buf2);
        assert_eq!(n, Bytes::to_u32(&buf2));
    }

    let mut buf: [u8; 3] = [0; 3];
    for n in (0..=0xFFFFFF).step_by(0xFFFFFF / 0xFF) {
        Bytes::from_u32(n, &mut buf);
        assert_eq!(n, Bytes::to_u32(&buf));
    }

    let mut buf: [u8; 4] = [0; 4];
    for n in (0..=0xFFFFFFFFu32).step_by(0xFFFFFFFF / 0xFF) {
        Bytes::from_u32(n, &mut buf);
        assert_eq!(n, Bytes::to_u32(&buf));
    }
}

#[test]
fn bytes_hex_from() {
    for n in 0..=0xFF {
        let hex_str = format!("{:02X}", n);
        let hex_bytes = Bytes::from_hexstr(&hex_str).unwrap();
        let to_hex_str = Bytes::to_hexstring(&hex_bytes);
        assert_eq!(hex_str, to_hex_str);
    }

    for n in (0..=0xFFFF).step_by(0xFFFF / 0xFF) {
        let hex_str = format!("{:04X}", n);
        let hex_bytes = Bytes::from_hexstr(&hex_str).unwrap();
        let to_hex_str = Bytes::to_hexstring(&hex_bytes);
        assert_eq!(hex_str, to_hex_str);
    }

    for n in (0..=0xFFFFFF).step_by(0xFFFFFF / 0xFF) {
        let hex_str = format!("{:06X}", n);
        let hex_bytes = Bytes::from_hexstr(&hex_str).unwrap();
        let to_hex_str = Bytes::to_hexstring(&hex_bytes);
        assert_eq!(hex_str, to_hex_str);
    }

    for n in (0..=0xFFFFFFFFu32).step_by(0xFFFFFFFF / 0xFF) {
        let hex_str = format!("{:08X}", n);
        let hex_bytes = Bytes::from_hexstr(&hex_str).unwrap();
        let to_hex_str = Bytes::to_hexstring(&hex_bytes);
        assert_eq!(hex_str, to_hex_str);
    }
}

#[test]
fn bytes_u32_exact_values() {
    let mut buf: [u8; 4] = [0; 4];
    Bytes::from_u32(0x12345678, &mut buf);
    assert_eq!(buf, [0x12, 0x34, 0x56, 0x78]);
    assert_eq!(Bytes::to_u32(&buf), 0x12345678);

    let mut buf: [u8; 2] = [0; 2];
    Bytes::from_u32(0xABCD, &mut buf);
    assert_eq!(buf, [0xAB, 0xCD]);

    // The encoding keeps only the low bytes that fit the buffer.
    let mut buf: [u8; 1] = [0; 1];
    Bytes::from_u32(0x1FF, &mut buf);
    assert_eq!(buf, [0xFF]);

    let empty: [u8; 0] = [];
    assert_eq!(Bytes::to_u32(&empty), 0);
}

#[test]
fn bytes_hex_exact_values() {
    assert_eq!(Bytes::to_hexstring(&[]), "");
    assert_eq!(Bytes::to_hexstring(&[0x00, 0x0F, 0xA5]), "000FA5");

    assert_eq!(Bytes::from_hexstr("").unwrap(), Vec::<u8>::new());
    assert_eq!(Bytes::from_hexstr("00").unwrap(), vec![0x00]);
    assert_eq!(Bytes::from_hexstr("deadBEEF").unwrap(), vec![0xDE, 0xAD, 0xBE, 0xEF]);
    // A trailing unpaired character is ignored.
    assert_eq!(Bytes::from_hexstr("0AB").unwrap(), vec![0x0A]);
    // A single character forms no pair.
    assert_eq!(Bytes::from_hexstr("Z").unwrap(), Vec::<u8>::new());

    assert!(Bytes::from_hexstr("0G").is_err());
    assert!(Bytes::from_hexstr("  ").is_err());

    assert_eq!(Bytes::from_hexbytes(b"1234").unwrap(), vec![0x12, 0x34]);
    assert!(Bytes::from_hexbytes(b"12xy").is_err());
    // The bytes are decoded as UTF-8 text first, and the text's characters
    // are paired: a trailing multibyte character is one unpaired character.
    assert_eq!(Bytes::from_hexbytes(b"AB\xC4\x80").unwrap(), vec![0xAB]);
    assert!(Bytes::from_hexbytes(&[0x31, 0x32, 0xFF]).is_err());

    let s = String::from("7f80");
    assert_eq!(Bytes::from_hexstring(&s).unwrap(), vec![0x7F, 0x80]);
}
