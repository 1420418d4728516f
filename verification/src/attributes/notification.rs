//! Identifiers for the attributes of a notification, with their
//! single-byte wire representation.

use vstd::prelude::*;

verus! {

/// Provides a set of identifiers for types of attributes that a consumer may
/// require. This list of `NotificationAttributeID`s follows the ANCS
/// Specification for valid NotificationAttributeIDs.
#[derive(Debug, PartialEq, Eq, Structural, Clone, Copy)]
pub enum NotificationAttributeID {
    AppIdentifier,
    Title,
    Subtitle,
    Message,
    MessageSize,
    Date,
    PositiveActionLabel,
    NegativeActionLabel,
}

/// The error returned when a byte carries no defined attribute identifier
/// code.
#[derive(Debug, Clone)]
pub struct NotificationAttributeIDError;

/// The two ways a parse can fail: the input held no byte at all, so a caller
/// with a streaming source may retry once more bytes arrive; or a byte was
/// read whose value is no defined code, which no amount of further input can
/// mend.
#[derive(Debug, PartialEq, Eq, Structural, Clone, Copy)]
pub enum ParseFailure {
    Incomplete,
    InvalidValue,
}

/// Relies on nom::number::complete::le_u8 to read one little-endian byte:
/// on a non-empty slice it returns the first byte and the input advanced
/// past it; on an empty slice it fails.
#[verifier::external_body]
fn read_le_u8(i: &[u8]) -> (r: Option<(&[u8], u8)>)
    ensures
        r is None <==> i@.len() == 0,
        r matches Some((rest, byte)) ==> i@.len() > 0 && byte == i@[0] && rest@ == i@.skip(1),
{
    match nom::number::complete::le_u8::<&[u8], nom::error::Error<&[u8]>>(i) {
        Ok((rest, byte)) => Some((rest, byte)),
        Err(_) => None,
    }
}

/// The wire code of an identifier: the single byte that stands for it on the
/// wire.
pub open spec fn wire_code(id: NotificationAttributeID) -> u8 {
    match id {
        NotificationAttributeID::AppIdentifier => 0,
        NotificationAttributeID::Title => 1,
        NotificationAttributeID::Subtitle => 2,
        NotificationAttributeID::Message => 3,
        NotificationAttributeID::MessageSize => 4,
        NotificationAttributeID::Date => 5,
        NotificationAttributeID::PositiveActionLabel => 6,
        NotificationAttributeID::NegativeActionLabel => 7,
    }
}

/// What a wire byte decodes to: the unique identifier whose code it is, or
/// an error for the byte values that stand for none.
pub open spec fn decoded(b: u8) -> Result<NotificationAttributeID, NotificationAttributeIDError> {
    if b == 0 {
        Ok(NotificationAttributeID::AppIdentifier)
    } else if b == 1 {
        Ok(NotificationAttributeID::Title)
    } else if b == 2 {
        Ok(NotificationAttributeID::Subtitle)
    } else if b == 3 {
        Ok(NotificationAttributeID::Message)
    } else if b == 4 {
        Ok(NotificationAttributeID::MessageSize)
    } else if b == 5 {
        Ok(NotificationAttributeID::Date)
    } else if b == 6 {
        Ok(NotificationAttributeID::PositiveActionLabel)
    } else if b == 7 {
        Ok(NotificationAttributeID::NegativeActionLabel)
    } else {
        Err(NotificationAttributeIDError)
    }
}

impl From<NotificationAttributeID> for u8 {
    /// Convert a `NotificationAttributeID` to a `u8`: the total forward
    /// mapping onto the wire codes.
    fn from(original: NotificationAttributeID) -> (r: u8) {
        match original {
            NotificationAttributeID::AppIdentifier => 0,
            NotificationAttributeID::Title => 1,
            NotificationAttributeID::Subtitle => 2,
            NotificationAttributeID::Message => 3,
            NotificationAttributeID::MessageSize => 4,
            NotificationAttributeID::Date => 5,
            NotificationAttributeID::PositiveActionLabel => 6,
            NotificationAttributeID::NegativeActionLabel => 7,
        }
    }
}

impl vstd::std_specs::convert::FromSpecImpl<NotificationAttributeID> for u8 {
    open spec fn obeys_from_spec() -> bool {
        true
    }

    open spec fn from_spec(v: NotificationAttributeID) -> u8 {
        wire_code(v)
    }
}

impl TryFrom<u8> for NotificationAttributeID {
    type Error = NotificationAttributeIDError;

    /// Attempts to convert a `u8` to a `NotificationAttributeID`: the
    /// partial reverse mapping from the wire codes.
    fn try_from(original: u8) -> (r: Result<Self, Self::Error>) {
        match original {
            0 => Ok(NotificationAttributeID::AppIdentifier),
            1 => Ok(NotificationAttributeID::Title),
            2 => Ok(NotificationAttributeID::Subtitle),
            3 => Ok(NotificationAttributeID::Message),
            4 => Ok(NotificationAttributeID::MessageSize),
            5 => Ok(NotificationAttributeID::Date),
            6 => Ok(NotificationAttributeID::PositiveActionLabel),
            7 => Ok(NotificationAttributeID::NegativeActionLabel),
            _ => Err(NotificationAttributeIDError),
        }
    }
}

impl vstd::std_specs::convert::TryFromSpecImpl<u8> for NotificationAttributeID {
    open spec fn obeys_try_from_spec() -> bool {
        true
    }

    open spec fn try_from_spec(v: u8) -> Result<Self, Self::Error> {
        decoded(v)
    }
}

impl NotificationAttributeID {
    /// Attempts to parse a `NotificationAttributeID` from a `&[u8]`.
    ///
    /// Exactly one byte is consumed on success, and the rest of the input is
    /// handed back untouched for the next field parser. An empty input fails
    /// with `Incomplete`; a leading byte that is no defined code fails with
    /// `InvalidValue`.
    pub fn parse(i: &[u8]) -> (r: Result<(&[u8], NotificationAttributeID), ParseFailure>)
        ensures
            i@.len() == 0 ==> (r matches Err(f) && f is Incomplete),
            i@.len() > 0 && decoded(i@[0]) is Ok ==> (r matches Ok(p) && p.0@ == i@.skip(1)
                && p.1 == decoded(i@[0])->Ok_0),
            i@.len() > 0 && decoded(i@[0]) is Err ==> (r matches Err(f) && f is InvalidValue),
    {
        match read_le_u8(i) {
            None => Err(ParseFailure::Incomplete),
            Some((rest, byte)) => match NotificationAttributeID::try_from(byte) {
                Ok(id) => Ok((rest, id)),
                Err(_) => Err(ParseFailure::InvalidValue),
            },
        }
    }

    /// Determines if a `NotificationAttributeID` has a size based on
    /// requirements defined in the ANCS specification: the three
    /// variable-length text attributes are followed on the wire by a 2-byte
    /// length field, the others are not.
    pub fn is_sized(id: NotificationAttributeID) -> (r: bool)
        ensures
            r == (id is Title || id is Subtitle || id is Message),
    {
        match id {
            NotificationAttributeID::Title => true,
            NotificationAttributeID::Subtitle => true,
            NotificationAttributeID::Message => true,
            _ => false,
        }
    }
}

/// Round trip: decoding the wire code of any defined identifier yields that
/// identifier back.
pub proof fn lemma_round_trip(id: NotificationAttributeID)
    ensures
        decoded(wire_code(id)) matches Ok(back) && back == id,
{
}

/// The forward mapping is total and injective: every identifier has a wire
/// code in the code space 0..=7, and no two identifiers share one.
pub proof fn lemma_wire_code_injective(a: NotificationAttributeID, b: NotificationAttributeID)
    ensures
        wire_code(a) <= 7,
        wire_code(a) == wire_code(b) ==> a == b,
{
}

/// The reverse mapping is exhaustive: every byte in the code space 0..=7
/// decodes to the unique identifier whose wire code it is, and every byte
/// above it is rejected.
pub proof fn lemma_decoded_exhaustive(b: u8)
    ensures
        b <= 7 ==> (decoded(b) matches Ok(id) && wire_code(id) == b),
        b > 7 ==> decoded(b) is Err,
{
}

} // verus!
