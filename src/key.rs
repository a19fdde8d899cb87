//! The pre-shared 256-bit key and the two ways of obtaining it.

use vstd::prelude::*;
use crate::cipher::KEY_LEN;
use crate::relay::Mode;
use crypto::digest::Digest;
use crypto::sha2::Sha256;

verus! {

/// A 256-bit AES key. It is never changed once made.
pub struct Key {
    bytes: Vec<u8>,
}

impl View for Key {
    type V = Seq<u8>;

    closed spec fn view(&self) -> Seq<u8> {
        self.bytes@
    }
}

impl Key {
    #[verifier::type_invariant]
    spec fn well_formed(self) -> bool {
        self.bytes@.len() == KEY_LEN
    }

    /// Takes `bytes` as a key when there are exactly 32 of them.
    pub fn from_bytes(bytes: Vec<u8>) -> (r: Option<Key>)
        ensures
            match r {
                Some(k) => bytes@.len() == KEY_LEN && k@ == bytes@,
                None => bytes@.len() != KEY_LEN,
            },
    {
        if bytes.len() == KEY_LEN {
            Some(Key { bytes })
        } else {
            None
        }
    }

    /// The key's bytes.
    pub fn as_bytes(&self) -> (r: &[u8])
        ensures
            r@ == self@,
            r@.len() == KEY_LEN,
    {
        proof {
            use_type_invariant(self);
        }
        self.bytes.as_slice()
    }
}

/// Why no key could be had from the arguments.
#[derive(Debug, Clone, Copy, PartialEq, Eq, Structural)]
pub enum KeyError {
    /// The key option carried no value.
    MissingKey,
    /// The key is not an even number of hexadecimal digits.
    InvalidHex,
    /// The key does not decode to 32 bytes.
    WrongLength,
    /// The password option carried no value.
    MissingPassword,
}

/// The value of a hexadecimal digit, either case; -1 for any other character.
pub open spec fn hex_value(c: char) -> int {
    let n = c as int;
    if 48 <= n <= 57 {
        n - 48
    } else if 65 <= n <= 70 {
        n - 55
    } else if 97 <= n <= 102 {
        n - 87
    } else {
        -1
    }
}

/// `s` is an even number of hexadecimal digits.
pub open spec fn is_hex_text(s: Seq<char>) -> bool {
    &&& s.len() % 2 == 0
    &&& forall|i: int| 0 <= i < s.len() ==> hex_value(#[trigger] s[i]) >= 0
}

/// The bytes that the digit pairs of `s` spell, high digit first.
pub open spec fn hex_bytes(s: Seq<char>) -> Seq<u8> {
    Seq::new(s.len() / 2, |i: int| (16 * hex_value(s[2 * i]) + hex_value(s[2 * i + 1])) as u8)
}

/// The SHA-256 digest of the UTF-8 bytes of a text.
pub uninterp spec fn sha256_of(text: Seq<char>) -> Seq<u8>;

#[verifier::external_type_specification]
#[verifier::external_body]
pub struct ExFromHexError(hex::FromHexError);

/// Relies on `hex::decode`: it accepts exactly an even number of hex digits
/// of either case and returns the byte of each pair, high digit first.
#[verifier::external_body]
fn decode_hex(text: &str) -> (r: Result<Vec<u8>, hex::FromHexError>)
    ensures
        r is Ok <==> is_hex_text(text@),
        r is Ok ==> r->Ok_0@ == hex_bytes(text@),
{
    hex::decode(text)
}

/// Relies on rust-crypto's `Sha256` (`new`, `input_str`, `result`): the
/// 32-byte digest of the text's UTF-8 bytes.
#[verifier::external_body]
fn sha256_digest(text: &str) -> (r: Vec<u8>)
    ensures
        r@ == sha256_of(text@),
        r@.len() == KEY_LEN,
{
    let mut hasher = Sha256::new();
    hasher.input_str(text);
    let mut out = vec![0u8; 32];
    hasher.result(&mut out);
    out
}

/// A key parsing outcome over the key's bytes.
pub open spec fn key_outcome(r: Result<Key, KeyError>) -> Result<Seq<u8>, KeyError> {
    match r {
        Ok(k) => Ok(k@),
        Err(e) => Err(e),
    }
}

/// A mode selection outcome over the key's bytes; `None` for a plain relay.
pub open spec fn mode_outcome(r: Result<Mode, KeyError>) -> Result<Option<Seq<u8>>, KeyError> {
    match r {
        Ok(Mode::Plain) => Ok(None),
        Ok(Mode::Encrypted(k)) => Ok(Some(k@)),
        Err(e) => Err(e),
    }
}

/// Reads a key written as 64 hexadecimal digits.
pub fn parse_key(key: Option<&str>) -> (r: Result<Key, KeyError>)
    ensures
        key_outcome(r) == parse_key_result(key),
{
    match key {
        None => Err(KeyError::MissingKey),
        Some(text) => match decode_hex(text) {
            Ok(bytes) => match Key::from_bytes(bytes) {
                Some(k) => Ok(k),
                None => Err(KeyError::WrongLength),
            },
            Err(_) => Err(KeyError::InvalidHex),
        },
    }
}

/// Derives a key from a password: the SHA-256 digest of its bytes.
pub fn parse_password(password: Option<&str>) -> (r: Result<Key, KeyError>)
    ensures
        key_outcome(r) == parse_password_result(password),
{
    match password {
        None => Err(KeyError::MissingPassword),
        Some(text) => {
            let digest = sha256_digest(text);
            match Key::from_bytes(digest) {
                Some(k) => Ok(k),
                None => Err(KeyError::WrongLength),
            }
        },
    }
}

/// Picks the relay mode from the key and password options: a key wins over
/// a password, and with neither the relay is plain.
pub fn select_mode(key: Option<Option<&str>>, password: Option<Option<&str>>) -> (r: Result<Mode, KeyError>)
    ensures
        mode_outcome(r) == match (key, password) {
            (Some(k), _) => match parse_key_result(k) {
                Ok(bytes) => Ok(Some(bytes)),
                Err(e) => Err(e),
            },
            (None, Some(p)) => match parse_password_result(p) {
                Ok(bytes) => Ok(Some(bytes)),
                Err(e) => Err(e),
            },
            (None, None) => Ok::<Option<Seq<u8>>, KeyError>(None),
        },
{
    match key {
        Some(k) => match parse_key(k) {
            Ok(k) => Ok(Mode::Encrypted(k)),
            Err(e) => Err(e),
        },
        None => match password {
            Some(p) => match parse_password(p) {
                Ok(k) => Ok(Mode::Encrypted(k)),
                Err(e) => Err(e),
            },
            None => Ok(Mode::Plain),
        },
    }
}

/// What `parse_key` gives, over the key's bytes.
pub open spec fn parse_key_result(key: Option<&str>) -> Result<Seq<u8>, KeyError> {
    match key {
        None => Err(KeyError::MissingKey),
        Some(s) => if !is_hex_text(s@) {
            Err(KeyError::InvalidHex)
        } else if hex_bytes(s@).len() != KEY_LEN {
            Err(KeyError::WrongLength)
        } else {
            Ok(hex_bytes(s@))
        },
    }
}

/// What `parse_password` gives, over the key's bytes.
pub open spec fn parse_password_result(password: Option<&str>) -> Result<Seq<u8>, KeyError> {
    match password {
        None => Err(KeyError::MissingPassword),
        Some(s) => Ok(sha256_of(s@)),
    }
}

} // verus!
