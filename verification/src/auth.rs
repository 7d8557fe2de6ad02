//! Pincode credentials: a random salt and the digest of the salt followed
//! by the pincode, both kept as lowercase hexadecimal text.
//!
//! A pincode needs at least `MIN_PINCODE_LEN` bytes. That minimum is a
//! choice of the product, not a measure of strength: a pincode of four digits is
//! guessed in ten thousand tries.

use rand::Rng;
use sha2::Digest;
use vstd::prelude::*;
use vstd::utf8::*;

use crate::error::Error;
use crate::hexfmt::{hex_digit, hex_digits};

verus! {

/// The number of random bytes in a salt.
pub const SALT_LENGTH: usize = 16;

/// The least number of bytes in a pincode.
pub const MIN_PINCODE_LEN: usize = 4;

/// The number of bytes in a digest.
pub const DIGEST_LENGTH: usize = 32;

/// The SHA-256 digest of `data`, as the crate `sha2` computes it.
pub uninterp spec fn sha256(data: Seq<u8>) -> Seq<u8>;

/// `bytes` in hexadecimal: two lowercase digits for each byte, the high
/// half first.
pub open spec fn hex_encode(bytes: Seq<u8>) -> Seq<char> {
    Seq::new(
        2 * bytes.len(),
        |i: int|
            if i % 2 == 0 {
                hex_digit(bytes[i / 2] as int / 16)
            } else {
                hex_digit(bytes[i / 2] as int % 16)
            },
    )
}

/// The value of a byte read as a hexadecimal digit, of either case.
pub open spec fn hex_value(byte: u8) -> Option<int> {
    if 0x30 <= byte <= 0x39 {
        Some(byte - 0x30)
    } else if 0x61 <= byte <= 0x66 {
        Some(byte - 0x61 + 10)
    } else if 0x41 <= byte <= 0x46 {
        Some(byte - 0x41 + 10)
    } else {
        None
    }
}

/// Whether `text` is an even number of hexadecimal digits.
pub open spec fn is_hex_text(text: Seq<u8>) -> bool {
    &&& text.len() % 2 == 0
    &&& forall|i: int| 0 <= i < text.len() ==> (#[trigger] hex_value(text[i])) is Some
}

/// The bytes that the hexadecimal digits in `text` stand for, two digits
/// to a byte; `None` where `text` is not an even number of such digits.
pub open spec fn hex_decode(text: Seq<u8>) -> Option<Seq<u8>> {
    if is_hex_text(text) {
        Some(
            Seq::new(
                text.len() / 2,
                |i: int| (16 * hex_value(text[2 * i])->0 + hex_value(text[2 * i + 1])->0) as u8,
            ),
        )
    } else {
        None
    }
}

/// The stored hash of `pincode` under `salt`: the digest of the salt
/// followed by the pincode, in hexadecimal.
pub open spec fn pincode_hash(salt: Seq<u8>, pincode: Seq<u8>) -> Seq<char> {
    hex_encode(sha256(salt + pincode))
}

/// Whether a pincode of these bytes is long enough.
pub open spec fn pincode_long_enough(pincode: Seq<u8>) -> bool {
    pincode.len() >= MIN_PINCODE_LEN
}

/// Whether `error` is the one that refuses a pincode for being too short.
pub open spec fn is_pincode_too_short(error: Error) -> bool {
    error matches Error::InvalidConfig(m) && m@ == "Pincode must be at least 4 characters"@
}

/// Calls `hex::encode`, which writes each byte as two lowercase
/// hexadecimal digits, the high half first.
#[verifier::external_body]
fn hex_encode_bytes(bytes: &[u8]) -> (text: String)
    ensures
        text@ == hex_encode(bytes@),
{
    hex::encode(bytes)
}

/// Calls `hex::decode` on the bytes of `text`. It succeeds exactly on an
/// even number of hexadecimal digits, of either case, and then gives the
/// byte for each pair; its error is dropped.
#[verifier::external_body]
fn hex_decode_text(text: &str) -> (bytes: Option<Vec<u8>>)
    ensures
        match bytes {
            Some(b) => hex_decode(encode_utf8(text@)) == Some(b@),
            None => hex_decode(encode_utf8(text@)) is None,
        },
{
    hex::decode(text).ok()
}

/// Calls `sha2::Sha256::digest`: the SHA-256 digest of `data`, which has
/// 32 bytes.
#[verifier::external_body]
fn sha256_digest(data: &[u8]) -> (digest: Vec<u8>)
    ensures
        digest@ == sha256(data@),
        digest@.len() == DIGEST_LENGTH,
{
    sha2::Sha256::digest(data).to_vec()
}

/// One byte drawn with `Rng::gen` from `rand::thread_rng`, the generator
/// of the thread, which the system seeds. Nothing is claimed of the byte.
/// The generator panics where the system gives it no seed.
#[verifier::external_body]
fn random_byte() -> u8 {
    rand::thread_rng().gen()
}

/// A new salt: `SALT_LENGTH` bytes from the random generator.
pub fn generate_salt() -> (salt: Vec<u8>)
    ensures
        salt@.len() == SALT_LENGTH,
{
    let mut salt: Vec<u8> = Vec::new();
    while salt.len() < SALT_LENGTH
        invariant
            salt@.len() <= SALT_LENGTH,
        decreases SALT_LENGTH - salt@.len(),
    {
        salt.push(random_byte());
    }
    salt
}

/// The stored hash of `pincode` under `salt`.
pub fn hash_pincode(pincode: &str, salt: &[u8]) -> (hash: String)
    ensures
        hash@ == pincode_hash(salt@, encode_utf8(pincode@)),
        hash@.len() == 2 * DIGEST_LENGTH,
{
    let pin = pincode.as_bytes();
    let mut data: Vec<u8> = Vec::new();
    let mut i: usize = 0;
    while i < salt.len()
        invariant
            i <= salt@.len(),
            data@ == salt@.take(i as int),
        decreases salt@.len() - i,
    {
        data.push(salt[i]);
        i += 1;
    }
    let mut j: usize = 0;
    while j < pin.len()
        invariant
            j <= pin@.len(),
            data@ == salt@ + pin@.take(j as int),
        decreases pin@.len() - j,
    {
        data.push(pin[j]);
        j += 1;
    }
    assert(data@ =~= salt@ + pin@);
    let digest = sha256_digest(data.as_slice());
    hex_encode_bytes(digest.as_slice())
}

/// Whether two strings hold the same text. Once the lengths agree, every
/// byte of both is looked at, wherever the first difference lies, so that
/// the time taken does not tell where it lies. The lengths are compared
/// first, and unequal lengths answer at once: that the lengths differ is
/// not kept secret.
pub fn constant_time_eq(a: &str, b: &str) -> (equal: bool)
    ensures
        equal == (a@ == b@),
{
    let x = a.as_bytes();
    let y = b.as_bytes();
    proof {
        encode_utf8_decode_utf8(a@);
        encode_utf8_decode_utf8(b@);
    }
    if x.len() != y.len() {
        return false;
    }
    let mut differences: u8 = 0;
    let mut i: usize = 0;
    while i < x.len()
        invariant
            i <= x@.len(),
            x@.len() == y@.len(),
            differences == 0 <==> (forall|j: int| 0 <= j < i ==> x@[j] == y@[j]),
        decreases x@.len() - i,
    {
        let xi = x[i];
        let yi = y[i];
        let ghost before = differences;
        differences = differences | (xi ^ yi);
        assert(differences == 0 <==> (before == 0 && xi == yi)) by (bit_vector)
            requires
                differences == before | (xi ^ yi),
        ;
        i += 1;
    }
    proof {
        if differences == 0 {
            assert(x@ =~= y@);
        }
    }
    differences == 0
}

/// The credentials of one person: the salt and the hash of the pincode
/// under that salt, both in hexadecimal.
#[derive(Debug, Clone, PartialEq)]
pub struct Credentials {
    /// The salt, in hexadecimal.
    pub salt: String,
    /// The digest of the salt followed by the pincode, in hexadecimal.
    pub pincode_hash: String,
}

/// What credentials are, as mathematical values.
pub struct CredentialsView {
    pub salt: Seq<char>,
    pub pincode_hash: Seq<char>,
}

impl CredentialsView {
    /// Whether these are the credentials made from `salt` and `pincode`.
    pub open spec fn derived_from(self, salt: Seq<u8>, pincode: Seq<u8>) -> bool {
        &&& self.salt == hex_encode(salt)
        &&& self.pincode_hash == pincode_hash(salt, pincode)
    }

    /// Whether these are credentials made from `pincode` and some salt of
    /// `SALT_LENGTH` bytes.
    pub open spec fn made_for(self, pincode: Seq<u8>) -> bool {
        exists|salt: Seq<u8>| salt.len() == SALT_LENGTH && #[trigger] self.derived_from(salt, pincode)
    }

    /// Whether `pincode` is the one these credentials were made from, as
    /// far as the stored salt and hash tell: the stored salt decodes, and
    /// the hash of `pincode` under it is the stored hash.
    pub open spec fn accepts(self, pincode: Seq<u8>) -> bool {
        match hex_decode(encode_utf8(self.salt)) {
            Some(salt) => pincode_hash(salt, pincode) == self.pincode_hash,
            None => false,
        }
    }
}

impl View for Credentials {
    type V = CredentialsView;

    open spec fn view(&self) -> CredentialsView {
        CredentialsView { salt: self.salt@, pincode_hash: self.pincode_hash@ }
    }
}

/// The error that refuses a pincode for being too short.
fn pincode_too_short() -> (error: Error)
    ensures
        is_pincode_too_short(error),
{
    Error::InvalidConfig("Pincode must be at least 4 characters".to_owned())
}

impl Credentials {
    /// The credentials for `pincode` under the given salt. A pincode of
    /// fewer than `MIN_PINCODE_LEN` bytes is refused.
    pub fn with_salt(pincode: &str, salt: &[u8]) -> (made: Result<Credentials, Error>)
        ensures
            match made {
                Ok(credentials) => pincode_long_enough(encode_utf8(pincode@))
                    && credentials@.derived_from(salt@, encode_utf8(pincode@)),
                Err(error) => !pincode_long_enough(encode_utf8(pincode@)) && is_pincode_too_short(
                    error,
                ),
            },
    {
        if pincode.as_bytes().len() < MIN_PINCODE_LEN {
            return Err(pincode_too_short());
        }
        let pincode_hash = hash_pincode(pincode, salt);
        Ok(Credentials { salt: hex_encode_bytes(salt), pincode_hash })
    }

    /// New credentials for `pincode`, under a salt that is generated for
    /// them. A pincode of fewer than `MIN_PINCODE_LEN` bytes is refused.
    pub fn new(pincode: &str) -> (made: Result<Credentials, Error>)
        ensures
            match made {
                Ok(credentials) => pincode_long_enough(encode_utf8(pincode@))
                    && credentials@.made_for(encode_utf8(pincode@)),
                Err(error) => !pincode_long_enough(encode_utf8(pincode@)) && is_pincode_too_short(
                    error,
                ),
            },
    {
        if pincode.as_bytes().len() < MIN_PINCODE_LEN {
            return Err(pincode_too_short());
        }
        let salt = generate_salt();
        Credentials::with_salt(pincode, salt.as_slice())
    }

    /// Whether `pincode` is the pincode of these credentials. Stored state
    /// that is malformed, such as a salt that is not hexadecimal, makes the
    /// answer `false`; it is never an error.
    pub fn verify(&self, pincode: &str) -> (accepted: bool)
        ensures
            accepted == self@.accepts(encode_utf8(pincode@)),
    {
        let salt = match hex_decode_text(self.salt.as_str()) {
            Some(salt) => salt,
            None => {
                return false;
            },
        };
        let hash = hash_pincode(pincode, salt.as_slice());
        constant_time_eq(hash.as_str(), self.pincode_hash.as_str())
    }

    /// Replaces the pincode, under the given salt. A pincode of fewer than
    /// `MIN_PINCODE_LEN` bytes is refused, and the credentials then stay as
    /// they were.
    pub fn update_pincode_with_salt(&mut self, new_pincode: &str, salt: &[u8]) -> (done: Result<
        (),
        Error,
    >)
        ensures
            match done {
                Ok(_) => pincode_long_enough(encode_utf8(new_pincode@))
                    && final(self)@.derived_from(salt@, encode_utf8(new_pincode@)),
                Err(error) => !pincode_long_enough(encode_utf8(new_pincode@))
                    && is_pincode_too_short(error) && *final(self) == *old(self),
            },
    {
        if new_pincode.as_bytes().len() < MIN_PINCODE_LEN {
            return Err(pincode_too_short());
        }
        self.pincode_hash = hash_pincode(new_pincode, salt);
        self.salt = hex_encode_bytes(salt);
        Ok(())
    }

    /// Replaces the pincode, under a salt that is generated anew. A pincode
    /// of fewer than `MIN_PINCODE_LEN` bytes is refused, and the
    /// credentials then stay as they were.
    pub fn update_pincode(&mut self, new_pincode: &str) -> (done: Result<(), Error>)
        ensures
            match done {
                Ok(_) => pincode_long_enough(encode_utf8(new_pincode@))
                    && final(self)@.made_for(encode_utf8(new_pincode@)),
                Err(error) => !pincode_long_enough(encode_utf8(new_pincode@))
                    && is_pincode_too_short(error) && *final(self) == *old(self),
            },
    {
        if new_pincode.as_bytes().len() < MIN_PINCODE_LEN {
            return Err(pincode_too_short());
        }
        let salt = generate_salt();
        self.update_pincode_with_salt(new_pincode, salt.as_slice())
    }
}

/// The credentials of a member, as they are stored beside the profile.
#[derive(Debug, Clone, PartialEq)]
pub struct MemberCredentials {
    /// The email of the member.
    pub email: String,
    /// The credentials of the member.
    pub credentials: Credentials,
}

/// What the credentials of a member are, as mathematical values.
pub struct MemberCredentialsView {
    pub email: Seq<char>,
    pub credentials: CredentialsView,
}

impl View for MemberCredentials {
    type V = MemberCredentialsView;

    open spec fn view(&self) -> MemberCredentialsView {
        MemberCredentialsView { email: self.email@, credentials: self.credentials@ }
    }
}

impl MemberCredentials {
    /// New credentials for the member `email` with the pincode `pincode`.
    /// A pincode of fewer than `MIN_PINCODE_LEN` bytes is refused.
    pub fn new(email: &str, pincode: &str) -> (made: Result<MemberCredentials, Error>)
        ensures
            match made {
                Ok(member) => pincode_long_enough(encode_utf8(pincode@)) && member@.email == email@
                    && member@.credentials.made_for(encode_utf8(pincode@)),
                Err(error) => !pincode_long_enough(encode_utf8(pincode@)) && is_pincode_too_short(
                    error,
                ),
            },
    {
        match Credentials::new(pincode) {
            Ok(credentials) => Ok(MemberCredentials { email: email.to_owned(), credentials }),
            Err(error) => Err(error),
        }
    }

    /// Whether `pincode` is the pincode of the member.
    pub fn verify(&self, pincode: &str) -> (accepted: bool)
        ensures
            accepted == self@.credentials.accepts(encode_utf8(pincode@)),
    {
        self.credentials.verify(pincode)
    }
}

/// Each hexadecimal digit is a character of one byte, and that byte reads
/// back as the value the digit stands for.
proof fn lemma_hex_digit_value(value: int)
    requires
        0 <= value < 16,
    ensures
        '\0' <= hex_digit(value) <= '\u{7f}',
        hex_value(hex_digit(value) as u8) == Some(value),
{
    let digits = hex_digits();
    assert(digits[0] == '0' && digits[1] == '1' && digits[2] == '2' && digits[3] == '3');
    assert(digits[4] == '4' && digits[5] == '5' && digits[6] == '6' && digits[7] == '7');
    assert(digits[8] == '8' && digits[9] == '9' && digits[10] == 'a' && digits[11] == 'b');
    assert(digits[12] == 'c' && digits[13] == 'd' && digits[14] == 'e' && digits[15] == 'f');
}

/// Decoding reverses encoding: the hexadecimal text of `bytes`, read back,
/// gives `bytes`.
pub proof fn lemma_hex_round_trip(bytes: Seq<u8>)
    ensures
        hex_decode(encode_utf8(hex_encode(bytes))) == Some(bytes),
{
    let chars = hex_encode(bytes);
    assert forall|i: int| 0 <= i < chars.len() implies '\0' <= #[trigger] chars[i] <= '\u{7f}' by {
        lemma_hex_digit_value(bytes[i / 2] as int / 16);
        lemma_hex_digit_value(bytes[i / 2] as int % 16);
    }
    assert(is_ascii_chars(chars));
    is_ascii_chars_encode_utf8(chars);
    let text = encode_utf8(chars);
    assert forall|i: int| 0 <= i < text.len() implies (#[trigger] hex_value(text[i])) == Some(
        if i % 2 == 0 {
            bytes[i / 2] as int / 16
        } else {
            bytes[i / 2] as int % 16
        },
    ) by {
        lemma_hex_digit_value(bytes[i / 2] as int / 16);
        lemma_hex_digit_value(bytes[i / 2] as int % 16);
        assert(text[i] == chars[i] as u8);
    }
    assert(is_hex_text(text));
    let decoded = hex_decode(text)->0;
    assert(decoded.len() == bytes.len());
    assert forall|k: int| 0 <= k < bytes.len() implies decoded[k] == bytes[k] by {
        assert(hex_value(text[2 * k]) == Some(bytes[k] as int / 16));
        assert(hex_value(text[2 * k + 1]) == Some(bytes[k] as int % 16));
    }
    assert(decoded =~= bytes);
}

/// Different bytes have different hexadecimal text.
pub proof fn lemma_hex_encode_injective(a: Seq<u8>, b: Seq<u8>)
    requires
        hex_encode(a) == hex_encode(b),
    ensures
        a == b,
{
    lemma_hex_round_trip(a);
    lemma_hex_round_trip(b);
}

/// Credentials accept the pincode they were made from.
pub proof fn lemma_accepts_own_pincode(
    credentials: CredentialsView,
    salt: Seq<u8>,
    pincode: Seq<u8>,
)
    requires
        credentials.derived_from(salt, pincode),
    ensures
        credentials.accepts(pincode),
{
    lemma_hex_round_trip(salt);
}

/// Credentials made for a pincode accept it, whatever salt was drawn.
pub proof fn lemma_made_for_accepts(credentials: CredentialsView, pincode: Seq<u8>)
    requires
        credentials.made_for(pincode),
    ensures
        credentials.accepts(pincode),
{
    let salt = choose|salt: Seq<u8>|
        salt.len() == SALT_LENGTH && #[trigger] credentials.derived_from(salt, pincode);
    lemma_accepts_own_pincode(credentials, salt, pincode);
}

/// Credentials reject every pincode whose digest under their salt differs
/// from that of the pincode they were made from.
pub proof fn lemma_rejects_other_pincode(
    credentials: CredentialsView,
    salt: Seq<u8>,
    pincode: Seq<u8>,
    other: Seq<u8>,
)
    requires
        credentials.derived_from(salt, pincode),
        sha256(salt + other) != sha256(salt + pincode),
    ensures
        !credentials.accepts(other),
{
    lemma_hex_round_trip(salt);
    if pincode_hash(salt, other) == pincode_hash(salt, pincode) {
        lemma_hex_encode_injective(sha256(salt + other), sha256(salt + pincode));
    }
}

/// Credentials made under different salts have different salt texts,
/// whatever the pincode.
pub proof fn lemma_different_salts_differ(
    first: CredentialsView,
    second: CredentialsView,
    first_salt: Seq<u8>,
    second_salt: Seq<u8>,
    pincode: Seq<u8>,
)
    requires
        first.derived_from(first_salt, pincode),
        second.derived_from(second_salt, pincode),
        first_salt != second_salt,
    ensures
        first.salt != second.salt,
{
    if first.salt == second.salt {
        lemma_hex_encode_injective(first_salt, second_salt);
    }
}

} // verus!
