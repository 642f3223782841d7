//! Time-based one-time passcodes (RFC 6238).
//!
//! The hashing and the base32 coding are done by `totp_rs`. What this module
//! keeps of a generator is plain data, so that the rules around it (which
//! secrets are accepted, how a secret is written down, how long a code stays
//! valid) can be stated and checked.

use crate::text::{ascii_uppercase, to_ascii_uppercase};
use vstd::prelude::*;

verus! {

/// The hash function under the message authentication code.
#[derive(Debug, PartialEq, Eq, Clone, Copy, Structural)]
pub enum Algorithm {
    Sha1,
    Sha256,
    Sha512,
}

/// The bytes that `text` denotes in base32 (RFC 4648 alphabet, upper case, no
/// padding), if it denotes any.
pub uninterp spec fn base32_decode(text: Seq<char>) -> Option<Seq<u8>>;

/// `bytes` written in base32 (RFC 4648 alphabet, upper case, no padding).
pub uninterp spec fn base32_encode(bytes: Seq<u8>) -> Seq<char>;

/// The passcode for the time step that holds `time` (seconds since the Unix
/// epoch), for a generator with these parameters.
pub uninterp spec fn passcode(
    algorithm: Algorithm,
    digits: usize,
    step: u64,
    secret: Seq<u8>,
    time: u64,
) -> Seq<char>;

/// The parameters that an `otpauth` address carries: the secret, and where
/// the address names them the algorithm, the number of digits and the step
/// (the period); nothing where it is not such an address. The parameters
/// may still be unusable (a step of 0).
pub uninterp spec fn otpauth_parameters(url: Seq<char>) -> Option<GeneratorView>;

/// How an `otpauth` address for time-based passcodes begins.
pub const OTPAUTH_PREFIX: &'static str = "otpauth://totp/";

/// Whether `text` begins as an `otpauth` address for time-based passcodes.
pub open spec fn is_otpauth_url(text: Seq<char>) -> bool {
    OTPAUTH_PREFIX@.is_prefix_of(text)
}

/// The characters of the base32 alphabet: `A` to `Z` and `2` to `7`.
pub open spec fn base32_alphabet(text: Seq<char>) -> bool {
    forall|i: int|
        0 <= i < text.len() ==> ('A' <= #[trigger] text[i] <= 'Z' || '2' <= text[i] <= '7')
}

/// Fewest bytes in a shared secret (128 bits).
pub const MIN_SECRET_BYTES: usize = 16;

/// The state of one passcode generator. The secret is wiped from memory
/// when the generator is released.
#[derive(Debug, PartialEq)]
pub struct Generator {
    algorithm: Algorithm,
    digits: usize,
    skew: u8,
    step: u64,
    secret: Vec<u8>,
}

/// What a [`Generator`] is made of.
pub struct GeneratorView {
    pub algorithm: Algorithm,
    pub digits: usize,
    pub skew: u8,
    pub step: u64,
    pub secret: Seq<u8>,
}

impl GeneratorView {
    /// The parameters that RFC 6238 recommends: SHA-1, six digits, steps of
    /// thirty seconds, one step of tolerance.
    pub open spec fn defaults(secret: Seq<u8>) -> GeneratorView {
        GeneratorView { algorithm: Algorithm::Sha1, digits: 6, skew: 1, step: 30, secret }
    }

    /// Parameters that a generator can work with.
    pub open spec fn usable(self) -> bool {
        &&& 6 <= self.digits <= 8
        &&& self.step > 0
        &&& self.secret.len() >= MIN_SECRET_BYTES
    }

    pub open spec fn code_at(self, time: u64) -> Seq<char> {
        passcode(self.algorithm, self.digits, self.step, self.secret, time)
    }

    /// Seconds for which the code of `time` stays valid, `time` included.
    pub open spec fn ttl_at(self, time: u64) -> int {
        self.step - time % self.step
    }
}

impl View for Generator {
    type V = GeneratorView;

    closed spec fn view(&self) -> GeneratorView {
        GeneratorView {
            algorithm: self.algorithm,
            digits: self.digits,
            skew: self.skew,
            step: self.step,
            secret: self.secret@,
        }
    }
}

impl Drop for Generator {
    /// Trusted: calls `zeroize::Zeroize::zeroize` on the secret, which
    /// overwrites its bytes with zeros and truncates it.
    #[verifier::external_body]
    fn drop(&mut self)
        opens_invariants none
        no_unwind
    {
        zeroize::Zeroize::zeroize(&mut self.secret);
    }
}

/// Trusted: `totp_rs::Secret::Encoded(..).to_bytes()`, which decodes base32
/// without padding and fails on any character outside the upper-case
/// alphabet.
#[verifier::external_body]
fn decode_base32(text: &str) -> (bytes: Option<Vec<u8>>)
    ensures
        bytes matches Some(b) ==> base32_decode(text@) == Some(b@),
        bytes is None ==> base32_decode(text@) is None,
{
    totp_rs::Secret::Encoded(text.to_string()).to_bytes().ok()
}

/// The fields of a generator as the outside crate hands them over, not yet
/// checked.
struct Parts {
    algorithm: Algorithm,
    digits: usize,
    skew: u8,
    step: u64,
    secret: Vec<u8>,
}

impl View for Parts {
    type V = GeneratorView;

    closed spec fn view(&self) -> GeneratorView {
        GeneratorView {
            algorithm: self.algorithm,
            digits: self.digits,
            skew: self.skew,
            step: self.step,
            secret: self.secret@,
        }
    }
}

/// Trusted: `totp_rs::Rfc6238::with_defaults` followed by
/// `totp_rs::TOTP::from_rfc6238`. The first refuses a secret of fewer than 16
/// bytes and otherwise fixes SHA-1, 6 digits, a skew of 1 and a step of 30;
/// the second accepts every such set. The fields of the result are copied.
#[verifier::external_body]
fn rfc6238_parts(secret: Vec<u8>) -> (parts: Option<Parts>)
    ensures
        parts is Some <==> secret@.len() >= MIN_SECRET_BYTES,
        parts matches Some(p) ==> p@ == GeneratorView::defaults(secret@),
{
    let rfc = totp_rs::Rfc6238::with_defaults(secret).ok()?;
    let totp = totp_rs::TOTP::from_rfc6238(rfc).ok()?;
    let algorithm = match totp.algorithm {
        totp_rs::Algorithm::SHA1 => Algorithm::Sha1,
        totp_rs::Algorithm::SHA256 => Algorithm::Sha256,
        totp_rs::Algorithm::SHA512 => Algorithm::Sha512,
    };
    Some(Parts { algorithm, digits: totp.digits, skew: totp.skew, step: totp.step, secret: totp.secret.clone() })
}

/// Trusted: `totp_rs::TOTP::from_url`. What it reads from the address is a
/// function of the address alone. Left out by `requires`: an address without
/// a host, on which that function panics; one that begins with
/// `otpauth://totp/` has the host `totp`.
#[verifier::external_body]
fn otpauth_parts(url: &str) -> (parts: Option<Parts>)
    requires
        is_otpauth_url(url@),
    ensures
        parts matches Some(p) ==> otpauth_parameters(url@) == Some(p@),
        parts is None ==> otpauth_parameters(url@) is None,
{
    let totp = totp_rs::TOTP::from_url(url).ok()?;
    let algorithm = match totp.algorithm {
        totp_rs::Algorithm::SHA1 => Algorithm::Sha1,
        totp_rs::Algorithm::SHA256 => Algorithm::Sha256,
        totp_rs::Algorithm::SHA512 => Algorithm::Sha512,
    };
    Some(Parts { algorithm, digits: totp.digits, skew: totp.skew, step: totp.step, secret: totp.secret.clone() })
}

/// Trusted: `totp_rs::Secret::Raw(..).to_encoded()`, which writes the bytes
/// in base32 with the upper-case alphabet of RFC 4648 and no padding, the
/// notation that `decode_base32` reads back.
#[verifier::external_body]
fn encode_base32(bytes: &Vec<u8>) -> (text: String)
    ensures
        text@ == base32_encode(bytes@),
        base32_decode(text@) == Some(bytes@),
        base32_alphabet(text@),
{
    totp_rs::Secret::Raw(bytes.clone()).to_encoded().to_string()
}

/// Trusted: `totp_rs::TOTP::generate` on a generator with the same fields.
/// The code is a function of the fields and the time alone. Left out by
/// `requires`: a step of 0, by which that function would divide.
#[verifier::external_body]
fn generate(generator: &Generator, time: u64) -> (code: String)
    requires
        generator@.usable(),
    ensures
        code@ == passcode(
            generator@.algorithm,
            generator@.digits,
            generator@.step,
            generator@.secret,
            time,
        ),
{
    let algorithm = match generator.algorithm {
        Algorithm::Sha1 => totp_rs::Algorithm::SHA1,
        Algorithm::Sha256 => totp_rs::Algorithm::SHA256,
        Algorithm::Sha512 => totp_rs::Algorithm::SHA512,
    };
    let secret = generator.secret.clone();
    totp_rs::TOTP::new_unchecked(algorithm, generator.digits, generator.skew, generator.step, secret, None, String::new())
        .generate(time)
}

/// The shared secret that `text` denotes: `text` is base32, in either case,
/// and decodes to at least 16 bytes.
pub open spec fn secret_bytes(text: Seq<char>) -> Option<Seq<u8>> {
    match base32_decode(ascii_uppercase(text)) {
        Some(bytes) => if bytes.len() >= MIN_SECRET_BYTES {
            Some(bytes)
        } else {
            None
        },
        None => None,
    }
}

/// Whether `text` is an acceptable shared secret.
pub open spec fn secret_syntax(text: Seq<char>) -> bool {
    secret_bytes(text) is Some
}

/// The one way in which the secret of `text` is written down.
pub open spec fn canonical_secret(text: Seq<char>) -> Seq<char>
    recommends
        secret_syntax(text),
{
    base32_encode(secret_bytes(text)->0)
}

/// The generator that `text` stands for: the one whose parameters it carries
/// where it begins as an `otpauth` address, and otherwise the one with the
/// recommended parameters for the secret that it denotes.
pub open spec fn generator_of(text: Seq<char>) -> Option<GeneratorView> {
    if is_otpauth_url(text) {
        match otpauth_parameters(text) {
            Some(parameters) => if parameters.usable() {
                Some(parameters)
            } else {
                None
            },
            None => None,
        }
    } else {
        match secret_bytes(text) {
            Some(bytes) => Some(GeneratorView::defaults(bytes)),
            None => None,
        }
    }
}

fn begins_as_otpauth(text: &str) -> (yes: bool)
    ensures
        yes == is_otpauth_url(text@),
{
    proof {
        reveal_strlit("otpauth://totp/");
    }
    let n = text.unicode_len();
    if n < 15 {
        false
    } else {
        let head = text.substring_char(0, 15);
        let same = crate::text::same_text(head, OTPAUTH_PREFIX);
        proof {
            assert(OTPAUTH_PREFIX@.len() == 15);
            if same {
                assert(text@.subrange(0, 15) =~= OTPAUTH_PREFIX@);
            }
        }
        same
    }
}

/// Upper-case base32 text is left alone by [`ascii_uppercase`].
pub proof fn lemma_alphabet_is_upper(text: Seq<char>)
    requires
        base32_alphabet(text),
    ensures
        ascii_uppercase(text) == text,
{
    assert(ascii_uppercase(text) =~= text);
}

impl Generator {
    #[verifier::type_invariant]
    closed spec fn usable(&self) -> bool {
        self@.usable()
    }

    /// A generator with the recommended parameters for the secret that
    /// `secret` denotes; `None` exactly where it denotes none.
    pub fn from_secret(secret: &str) -> (generator: Option<Generator>)
        ensures
            match generator {
                Some(g) => secret_bytes(secret@) == Some(g@.secret) && g@
                    == GeneratorView::defaults(g@.secret) && g@.usable(),
                None => secret_bytes(secret@) is None,
            },
    {
        let upper = to_ascii_uppercase(secret);
        match decode_base32(upper.as_str()) {
            Some(bytes) => match rfc6238_parts(bytes) {
                Some(parts) => Generator::checked(parts),
                None => None,
            },
            None => None,
        }
    }

    /// A generator with the parameters that the `otpauth` address `url`
    /// carries; `None` where it carries none, or unusable ones.
    pub fn from_url(url: &str) -> (generator: Option<Generator>)
        ensures
            match generator {
                Some(g) => is_otpauth_url(url@) && otpauth_parameters(url@) == Some(g@)
                    && g@.usable(),
                None => !is_otpauth_url(url@) || otpauth_parameters(url@) is None
                    || !otpauth_parameters(url@)->0.usable(),
            },
    {
        if !begins_as_otpauth(url) {
            return None;
        }
        match otpauth_parts(url) {
            Some(parts) => Generator::checked(parts),
            None => None,
        }
    }

    /// A generator from `text`, which is an `otpauth` address or a shared
    /// secret in base32.
    pub fn from_text(text: &str) -> (generator: Option<Generator>)
        ensures
            match generator {
                Some(g) => generator_of(text@) == Some(g@) && g@.usable(),
                None => generator_of(text@) is None,
            },
    {
        if begins_as_otpauth(text) {
            Generator::from_url(text)
        } else {
            Generator::from_secret(text)
        }
    }

    fn checked(parts: Parts) -> (generator: Option<Generator>)
        ensures
            match generator {
                Some(g) => g@ == parts@ && parts@.usable(),
                None => !parts@.usable(),
            },
    {
        if 6 <= parts.digits && parts.digits <= 8 && parts.step > 0 && parts.secret.len()
            >= MIN_SECRET_BYTES {
            Some(
                Generator {
                    algorithm: parts.algorithm,
                    digits: parts.digits,
                    skew: parts.skew,
                    step: parts.step,
                    secret: parts.secret,
                },
            )
        } else {
            None
        }
    }

    /// The secret in its canonical notation. Read as a secret again, the
    /// result denotes the same bytes, and is its own canonical notation.
    pub fn secret_base32(&self) -> (text: String)
        ensures
            text@ == base32_encode(self@.secret),
            secret_bytes(text@) == Some(self@.secret),
            canonical_secret(text@) == text@,
    {
        proof {
            use_type_invariant(self);
        }
        let text = encode_base32(&self.secret);
        proof {
            lemma_alphabet_is_upper(text@);
        }
        text
    }

    /// The code of the time step that holds `time`.
    pub fn code_at(&self, time: u64) -> (code: String)
        ensures
            code@ == self@.code_at(time),
    {
        proof {
            use_type_invariant(self);
        }
        generate(self, time)
    }

    /// Seconds until the code of `time` expires: between 1 and the step.
    pub fn ttl_at(&self, time: u64) -> (ttl: u64)
        ensures
            ttl == self@.ttl_at(time),
            1 <= ttl <= self@.step,
    {
        proof {
            use_type_invariant(self);
        }
        self.step - time % self.step
    }
}

} // verus!
