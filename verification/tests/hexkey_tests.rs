use proxy_launcher::hexkey::{decode_runtime_public_key, KeyDecodeError};

#[test]
fn decodes_64_digit_key_to_exact_bytes() {
    let hexstr = "000102030405060708090a0b0c0d0e0f101112131415161718191a1b1c1d1e1f";
    let key = decode_runtime_public_key(hexstr.as_bytes()).unwrap();
    let expected: Vec<u8> = (0u8..32).collect();
    assert_eq!(key.as_bytes(), expected.as_slice());
}

#[test]
fn decodes_with_0x_prefix() {
    let hexstr = "0xdeadbeefdeadbeefdeadbeefdeadbeefdeadbeefdeadbeefdeadbeefdeadbeef";
    let key = decode_runtime_public_key(hexstr.as_bytes()).unwrap();
    let expected = [0xdeu8, 0xad, 0xbe, 0xef].repeat(8);
    assert_eq!(key.as_bytes(), expected.as_slice());
}

#[test]
fn decodes_mixed_case_digits() {
    let hexstr = "AbCdEf00000000000000000000000000000000000000000000000000000000fF";
    let key = decode_runtime_public_key(hexstr.as_bytes()).unwrap();
    assert_eq!(key.as_bytes()[0], 0xab);
    assert_eq!(key.as_bytes()[1], 0xcd);
    assert_eq!(key.as_bytes()[2], 0xef);
    assert_eq!(key.as_bytes()[31], 0xff);
}

#[test]
fn agrees_with_hex_crate() {
    let inputs = [
        "000102030405060708090a0b0c0d0e0f101112131415161718191a1b1c1d1e1f",
        "ffeeddccbbaa99887766554433221100ffeeddccbbaa99887766554433221100",
        "0123456789abcdefABCDEF0123456789abcdef0123456789abcdef0123456789",
    ];
    for s in inputs {
        let key = decode_runtime_public_key(s.as_bytes()).unwrap();
        assert_eq!(key.as_bytes(), hex::decode(s).unwrap().as_slice());
    }
}

#[test]
fn rejects_63_digits_as_wrong_length() {
    let hexstr = "00102030405060708090a0b0c0d0e0f101112131415161718191a1b1c1d1e1f";
    assert_eq!(hexstr.len(), 63);
    let r = decode_runtime_public_key(hexstr.as_bytes());
    assert_eq!(r.unwrap_err(), KeyDecodeError::WrongLength);
}

#[test]
fn rejects_65_digits_as_wrong_length() {
    let hexstr = "f000102030405060708090a0b0c0d0e0f101112131415161718191a1b1c1d1e1f";
    assert_eq!(hexstr.len(), 65);
    let r = decode_runtime_public_key(hexstr.as_bytes());
    assert_eq!(r.unwrap_err(), KeyDecodeError::WrongLength);
}

#[test]
fn rejects_empty_input_as_wrong_length() {
    let r = decode_runtime_public_key(b"");
    assert_eq!(r.unwrap_err(), KeyDecodeError::WrongLength);
}

#[test]
fn rejects_bare_prefix_as_wrong_length() {
    let r = decode_runtime_public_key(b"0x");
    assert_eq!(r.unwrap_err(), KeyDecodeError::WrongLength);
}

#[test]
fn rejects_non_hex_character_as_invalid_digit() {
    let hexstr = "g00102030405060708090a0b0c0d0e0f101112131415161718191a1b1c1d1e1f";
    assert_eq!(hexstr.len(), 64);
    let r = decode_runtime_public_key(hexstr.as_bytes());
    assert_eq!(r.unwrap_err(), KeyDecodeError::InvalidDigit);
}

#[test]
fn rejects_non_hex_character_in_last_position() {
    let hexstr = "00102030405060708090a0b0c0d0e0f101112131415161718191a1b1c1d1e1fz";
    assert_eq!(hexstr.len(), 64);
    let r = decode_runtime_public_key(hexstr.as_bytes());
    assert_eq!(r.unwrap_err(), KeyDecodeError::InvalidDigit);
}

#[test]
fn strips_only_one_prefix() {
    let mut s = String::from("0x0x");
    s.push_str(&"0".repeat(60));
    assert_eq!(s.len(), 64);
    // After one strip 62 characters remain, so the length is wrong.
    let r = decode_runtime_public_key(s.as_bytes());
    assert_eq!(r.unwrap_err(), KeyDecodeError::WrongLength);
}
