//! Identifiers: 128-bit values with a canonical textual form.

use crate::proto;
use std::str::FromStr;
use vstd::prelude::*;
use vstd::std_specs::convert::FromSpecImpl;
use vstd::std_specs::convert::TryFromSpecImpl;

verus! {

#[verifier::external_type_specification]
#[verifier::external_body]
pub struct ExParseFailure(::uuid::Error);

/// The identifier that `::uuid::Uuid::from_str` reads from a text, if it reads
/// one.
pub uninterp spec fn parsed_uuid(text: Seq<char>) -> Option<u128>;

/// The text that `::uuid::Uuid` prints for the identifier of a given value.
pub uninterp spec fn uuid_text(value: u128) -> Seq<char>;

/// Whether a value carries the version and variant marks of a random
/// (version 4) identifier.
pub open spec fn is_version_4(value: u128) -> bool {
    value & 0x0000_0000_0000_f000_c000_0000_0000_0000u128
        == 0x0000_0000_0000_4000_8000_0000_0000_0000u128
}

/// A stable 128-bit identity of a user, a room or a message.
#[derive(Clone, Copy, Debug, PartialEq, Eq, Hash, Structural)]
pub struct Uuid {
    pub value: u128,
}

/// A text that is not an identifier in any of the accepted forms.
#[derive(Clone, Copy, Debug, PartialEq, Eq, Structural)]
pub struct MalformedUuid;

/// `::uuid::Uuid::from_str`, with the identifier handed back by its value
/// (`as_u128`). Trusted: the call succeeds exactly when `parsed_uuid` names a
/// value for the text, and then gives that value.
#[verifier::external_body]
fn parse_text(text: &str) -> (parsed: Result<Uuid, ::uuid::Error>)
    ensures
        parsed.is_ok() <==> parsed_uuid(text@).is_some(),
        parsed matches Ok(uuid) ==> parsed_uuid(text@) == Some(uuid.value),
{
    match ::uuid::Uuid::from_str(text) {
        Ok(uuid) => Ok(Uuid { value: uuid.as_u128() }),
        Err(error) => Err(error),
    }
}

/// `to_string` of the `::uuid::Uuid` made by `from_u128`. Trusted: the text is
/// the one `uuid_text` names, and, as the parser reads every form that the
/// crate prints, it reads back as the same value.
#[verifier::external_body]
fn print_text(uuid: Uuid) -> (text: String)
    ensures
        text@ == uuid_text(uuid.value),
        parsed_uuid(text@) == Some(uuid.value),
{
    ::uuid::Uuid::from_u128(uuid.value).to_string()
}

/// `::uuid::Uuid::new_v4`, by its value. Trusted: whatever random bits come
/// back, the version and variant marks are those of version 4. The call
/// aborts only if the operating system hands out no random bytes.
#[verifier::external_body]
fn random_v4() -> (uuid: Uuid)
    ensures
        is_version_4(uuid.value),
{
    Uuid { value: ::uuid::Uuid::new_v4().as_u128() }
}

impl Uuid {
    /// The identifier with the given 128-bit value.
    pub fn from_u128(value: u128) -> (uuid: Uuid)
        ensures
            uuid.value == value,
    {
        Uuid { value }
    }

    /// The 128-bit value of this identifier.
    pub fn as_u128(&self) -> (value: u128)
        ensures
            value == self.value,
    {
        self.value
    }

    /// A fresh random identifier.
    pub fn new_v4() -> (uuid: Uuid)
        ensures
            is_version_4(uuid.value),
    {
        random_v4()
    }

    /// Reads an identifier from a text.
    pub fn parse_str(text: &str) -> (parsed: Result<Uuid, MalformedUuid>)
        ensures
            parsed == Self::parse_spec(text@),
    {
        match parse_text(text) {
            Ok(uuid) => Ok(uuid),
            Err(_) => Err(MalformedUuid),
        }
    }

    /// What reading a text gives: the identifier it names, or the refusal.
    pub open spec fn parse_spec(text: Seq<char>) -> Result<Uuid, MalformedUuid> {
        match parsed_uuid(text) {
            Some(value) => Ok(Uuid { value }),
            None => Err(MalformedUuid),
        }
    }

    /// The canonical text of this identifier.
    pub fn to_text(&self) -> (text: String)
        ensures
            text@ == uuid_text(self.value),
            Self::parse_spec(text@) == Ok::<Uuid, MalformedUuid>(*self),
    {
        print_text(*self)
    }

    /// Whether a wire identifier holds exactly the canonical text of this one.
    pub fn eq_proto(&self, other: &proto::Uuid) -> (same: bool)
        ensures
            same == (other.uuid@ == uuid_text(self.value)),
    {
        let text = self.to_text();
        text == other.uuid
    }
}

impl TryFrom<proto::Uuid> for Uuid {
    type Error = MalformedUuid;

    fn try_from(proto_uuid: proto::Uuid) -> (parsed: Result<Uuid, MalformedUuid>) {
        Uuid::parse_str(proto_uuid.uuid.as_str())
    }
}

impl TryFromSpecImpl<proto::Uuid> for Uuid {
    open spec fn obeys_try_from_spec() -> bool {
        true
    }

    open spec fn try_from_spec(proto_uuid: proto::Uuid) -> Result<Uuid, MalformedUuid> {
        Uuid::parse_spec(proto_uuid.uuid@)
    }
}

impl From<Uuid> for proto::Uuid {
    fn from(uuid: Uuid) -> (wire: proto::Uuid)
        ensures
            wire.uuid@ == uuid_text(uuid.value),
            Uuid::parse_spec(wire.uuid@) == Ok::<Uuid, MalformedUuid>(uuid),
    {
        proto::Uuid { uuid: uuid.to_text() }
    }
}

/// The wire form holds a `String`, which no specification can construct; what
/// `from` gives is therefore stated on `from` itself, over the text it holds.
impl FromSpecImpl<Uuid> for proto::Uuid {
    open spec fn obeys_from_spec() -> bool {
        false
    }

    open spec fn from_spec(uuid: Uuid) -> proto::Uuid {
        arbitrary()
    }
}

} // verus!
