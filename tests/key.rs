use transpher::key::{parse_key, parse_password, select_mode, Key, KeyError};
use transpher::relay::Mode;

const HEX_KEY: &str = "000102030405060708090a0b0c0d0e0f101112131415161718191A1B1C1D1E1F";

#[test]
fn key_from_bytes_needs_thirty_two() {
    assert!(Key::from_bytes(vec![0; 31]).is_none());
    assert!(Key::from_bytes(vec![0; 33]).is_none());
    let k = Key::from_bytes(vec![4; 32]).unwrap();
    assert_eq!(k.as_bytes(), &[4u8; 32][..]);
}

#[test]
fn parse_key_decodes_mixed_case_hex() {
    let k = parse_key(Some(HEX_KEY)).ok().unwrap();
    let expected: Vec<u8> = (0..32).collect();
    assert_eq!(k.as_bytes(), &expected[..]);
}

#[test]
fn parse_key_errors() {
    assert!(matches!(parse_key(None), Err(KeyError::MissingKey)));
    assert!(matches!(parse_key(Some("abc")), Err(KeyError::InvalidHex)));
    assert!(matches!(parse_key(Some("zz")), Err(KeyError::InvalidHex)));
    assert!(matches!(parse_key(Some("0102")), Err(KeyError::WrongLength)));
    assert!(matches!(parse_key(Some(&HEX_KEY[..62])), Err(KeyError::WrongLength)));
    let long = format!("{}00", HEX_KEY);
    assert!(matches!(parse_key(Some(&long)), Err(KeyError::WrongLength)));
}

#[test]
fn password_key_is_its_sha256() {
    let k = parse_password(Some("password")).ok().unwrap();
    let expected =
        hex::decode("5e884898da28047151d0e56f8dc6292773603d0d6aabbdd62a11ef721d1542d8").unwrap();
    assert_eq!(k.as_bytes(), &expected[..]);
    let empty = parse_password(Some("")).ok().unwrap();
    let expected =
        hex::decode("e3b0c44298fc1c149afbf4c8996fb92427ae41e4649b934ca495991b7852b855").unwrap();
    assert_eq!(empty.as_bytes(), &expected[..]);
    assert!(matches!(parse_password(None), Err(KeyError::MissingPassword)));
}

#[test]
fn select_mode_prefers_key_over_password() {
    match select_mode(Some(Some(HEX_KEY)), Some(Some("password"))) {
        Ok(Mode::Encrypted(k)) => assert_eq!(k.as_bytes()[31], 0x1f),
        _ => panic!("expected an encrypted mode"),
    }
    match select_mode(None, Some(Some("password"))) {
        Ok(Mode::Encrypted(k)) => assert_eq!(k.as_bytes()[0], 0x5e),
        _ => panic!("expected an encrypted mode"),
    }
    assert!(matches!(select_mode(None, None), Ok(Mode::Plain)));
    assert!(matches!(select_mode(Some(Some("xyz")), None), Err(KeyError::InvalidHex)));
    assert!(matches!(select_mode(Some(None), None), Err(KeyError::MissingKey)));
    assert!(matches!(select_mode(None, Some(None)), Err(KeyError::MissingPassword)));
}
