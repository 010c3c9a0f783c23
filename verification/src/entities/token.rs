//! Authentication tokens: 128 random bits, carried as 32 hexadecimal digits.

use crate::proto;
use rand_chacha::ChaCha20Rng;
use rand_core::RngCore;
use std::num::ParseIntError;
use vstd::prelude::*;
use vstd::std_specs::convert::FromSpecImpl;
use vstd::std_specs::convert::TryFromSpecImpl;

verus! {

#[verifier::external_type_specification]
#[verifier::external_body]
pub struct ExChaCha20Rng(ChaCha20Rng);

#[verifier::external_type_specification]
#[verifier::external_body]
pub struct ExParseIntError(ParseIntError);

/// The digit of base 16, in lower case, for a value from 0 to 15.
pub open spec fn hex_digit(value: nat) -> char {
    "0123456789abcdef"@[value as int]
}

/// A number in base 16, in lower case, written with exactly the given number
/// of digits: the most significant digit first, zeros in front where the
/// number is short.
pub open spec fn hex_text(value: nat, digits: nat) -> Seq<char>
    decreases digits,
{
    if digits == 0 {
        Seq::empty()
    } else {
        hex_text(value / 16, (digits - 1) as nat).push(hex_digit(value % 16))
    }
}

/// The text of a token: its 128 bits as 32 digits of base 16, in lower case.
/// This is what `format!` prints for the value under `{:>032x}`.
pub open spec fn token_text(value: u128) -> Seq<char> {
    hex_text(value as nat, 32)
}

/// A text of so many digits has so many characters.
pub proof fn lemma_hex_text_len(value: nat, digits: nat)
    ensures
        hex_text(value, digits).len() == digits,
    decreases digits,
{
    if digits > 0 {
        lemma_hex_text_len(value / 16, (digits - 1) as nat);
    }
}

/// The value that `u128::from_str_radix` reads from a text in base 16, if it
/// reads one.
pub uninterp spec fn parsed_token(text: Seq<char>) -> Option<u128>;

/// A text brought to at least 32 characters by spaces in front of it. This
/// is what `format!` prints for the text under `{:>032}`.
pub open spec fn padded_text(text: Seq<char>) -> Seq<char> {
    if text.len() >= 32 {
        text
    } else {
        Seq::new((32 - text.len()) as nat, |i: int| ' ') + text
    }
}

/// The token that authenticates a user's calls.
#[derive(Clone, Copy, Debug, PartialEq, Eq, Structural)]
pub struct AuthToken {
    pub token: u128,
}

/// A text that is not a number of at most 128 bits in base 16.
#[derive(Clone, Copy, Debug, PartialEq, Eq, Structural)]
pub struct MalformedToken;

/// `RngCore::fill_bytes` of `ChaCha20Rng`, on sixteen bytes. Trusted: sixteen
/// bytes come back; nothing is said of what they hold.
#[verifier::external_body]
fn random_pool(random: &mut ChaCha20Rng) -> (pool: Vec<u8>)
    ensures
        pool@.len() == 16,
{
    let mut pool = [0u8; 16];
    random.fill_bytes(&mut pool);
    pool.to_vec()
}

/// `format!` with `{:>032x}`. Trusted: the text is the value in base 16 and
/// lower case, filled with zeros to the width of 32, which a 128-bit value
/// never exceeds; and, being the value in base 16, it reads back as that
/// value.
#[verifier::external_body]
fn print_hex(value: u128) -> (text: String)
    ensures
        text@ == token_text(value),
        parsed_token(text@) == Some(value),
{
    format!("{:>032x}", value)
}

/// `u128::from_str_radix` in base 16. Trusted: the call succeeds exactly when
/// `parsed_token` names a value for the text, and then gives that value.
#[verifier::external_body]
fn parse_hex(text: &str) -> (parsed: Result<u128, ParseIntError>)
    ensures
        parsed.is_ok() <==> parsed_token(text@).is_some(),
        parsed matches Ok(value) ==> parsed_token(text@) == Some(value),
{
    u128::from_str_radix(text, 16)
}

/// `format!` with `{:>032}` on a text. Trusted: a text of fewer than 32
/// characters is moved to the right by spaces, and a text of 32 characters
/// or more is left as it is, the width being a minimum.
#[verifier::external_body]
fn print_padded(text: &str) -> (padded: String)
    ensures
        padded@ == padded_text(text@),
{
    format!("{:>032}", text)
}

impl AuthToken {
    /// A fresh token, drawn from the given generator.
    pub fn new(random: &mut ChaCha20Rng) -> (token: AuthToken) {
        let pool = random_pool(random);
        Self::from_le_bytes(pool.as_slice())
    }

    /// The token whose value is the given sixteen bytes, least significant
    /// first.
    pub fn from_le_bytes(pool: &[u8]) -> (token: AuthToken)
        requires
            pool@.len() == 16,
        ensures
            token.token == vstd::bytes::spec_u128_from_le_bytes(pool@),
    {
        AuthToken { token: vstd::bytes::u128_from_le_bytes(pool) }
    }

    /// Reads a token from its hexadecimal text.
    pub fn from_str(text: &str) -> (parsed: Result<AuthToken, MalformedToken>)
        ensures
            parsed == Self::parse_spec(text@),
    {
        match parse_hex(text) {
            Ok(token) => Ok(AuthToken { token }),
            Err(_) => Err(MalformedToken),
        }
    }

    /// What reading a text gives: the token it names, or the refusal.
    pub open spec fn parse_spec(text: Seq<char>) -> Result<AuthToken, MalformedToken> {
        match parsed_token(text) {
            Some(token) => Ok(AuthToken { token }),
            None => Err(MalformedToken),
        }
    }

    /// The token as 32 hexadecimal digits.
    pub fn to_text(&self) -> (text: String)
        ensures
            text@ == token_text(self.token),
            text@.len() == 32,
            Self::parse_spec(text@) == Ok::<AuthToken, MalformedToken>(*self),
    {
        proof {
            lemma_hex_text_len(self.token as nat, 32);
        }
        print_hex(self.token)
    }
}

impl proto::AuthToken {
    /// The wire token as it is displayed: padded to 32 characters.
    pub fn to_text(&self) -> (text: String)
        ensures
            text@ == padded_text(self.token@),
            self.token@.len() >= 32 ==> text@ == self.token@,
    {
        print_padded(self.token.as_str())
    }

    /// Reads a wire token from a text: the canonical form of the token that
    /// the text names.
    pub fn from_str(text: &str) -> (parsed: Result<proto::AuthToken, MalformedToken>)
        ensures
            parsed.is_ok() <==> parsed_token(text@).is_some(),
            parsed matches Ok(wire) ==> wire.token@ == token_text(parsed_token(text@).unwrap()),
    {
        match AuthToken::from_str(text) {
            Ok(token) => Ok(proto::AuthToken::from(token)),
            Err(error) => Err(error),
        }
    }
}

impl From<AuthToken> for proto::AuthToken {
    fn from(auth_token: AuthToken) -> (wire: proto::AuthToken)
        ensures
            wire.token@ == token_text(auth_token.token),
            wire.token@.len() == 32,
            AuthToken::parse_spec(wire.token@) == Ok::<AuthToken, MalformedToken>(auth_token),
    {
        proto::AuthToken { token: auth_token.to_text() }
    }
}

/// The wire form holds a `String`, which no specification can construct; what
/// `from` gives is therefore stated on `from` itself, over the text it holds.
impl FromSpecImpl<AuthToken> for proto::AuthToken {
    open spec fn obeys_from_spec() -> bool {
        false
    }

    open spec fn from_spec(auth_token: AuthToken) -> proto::AuthToken {
        arbitrary()
    }
}

impl TryFrom<proto::AuthToken> for AuthToken {
    type Error = MalformedToken;

    fn try_from(proto_token: proto::AuthToken) -> (parsed: Result<AuthToken, MalformedToken>) {
        AuthToken::from_str(proto_token.token.as_str())
    }
}

impl TryFromSpecImpl<proto::AuthToken> for AuthToken {
    open spec fn obeys_try_from_spec() -> bool {
        true
    }

    open spec fn try_from_spec(proto_token: proto::AuthToken) -> Result<AuthToken, MalformedToken> {
        AuthToken::parse_spec(proto_token.token@)
    }
}

} // verus!
