//! Identifiers of players and yaks: UUIDs, as the GraphQL `ID` scalar of the
//! game carries them.

use vstd::prelude::*;

verus! {

/// A UUID identifying a player or a yak, held as its 128-bit value.
#[derive(Debug, Clone, Copy, PartialEq, Eq, Hash, Structural)]
pub struct Id {
    pub value: u128,
}

/// The lowercase hexadecimal digit of a number below 16.
pub open spec fn hex_digit(n: int) -> char {
    if n < 10 {
        (('0' as int) + n) as char
    } else {
        (('a' as int) + n - 10) as char
    }
}

/// Which of the 32 hexadecimal digits of a UUID (most significant first)
/// stands at position `i` of its hyphenated text.
pub open spec fn uuid_digit_index(i: int) -> int {
    if i < 8 {
        i
    } else if i < 13 {
        i - 1
    } else if i < 18 {
        i - 2
    } else if i < 23 {
        i - 3
    } else {
        i - 4
    }
}

/// The text of a UUID in its hyphenated lowercase form, as `uuid::Uuid`
/// displays it (`67e55044-10b1-426f-9247-bb680e5fe0c8`): its 32 hexadecimal
/// digits, most significant first, in groups of 8, 4, 4, 4 and 12 separated
/// by hyphens.
pub open spec fn uuid_text(value: u128) -> Seq<char> {
    Seq::new(
        36,
        |i: int|
            if i == 8 || i == 13 || i == 18 || i == 23 {
                '-'
            } else {
                hex_digit(
                    (value as int / vstd::arithmetic::power::pow(
                        16,
                        (31 - uuid_digit_index(i)) as nat,
                    )) % 16,
                )
            },
    )
}

/// What `uuid::Uuid::parse_str` gives for a text: the value it reads, or
/// the text of its `uuid::Error`.
pub uninterp spec fn uuid_parse(text: Seq<char>) -> Result<u128, Seq<char>>;

/// The value that `uuid::Uuid::parse_str` reads from a text, if it reads one.
pub open spec fn parsed_uuid(text: Seq<char>) -> Option<u128> {
    match uuid_parse(text) {
        Ok(v) => Some(v),
        Err(_) => None,
    }
}

/// The text of the error `uuid::Uuid::parse_str` gives for a text it does
/// not read (empty where it reads one).
pub open spec fn uuid_error_text(text: Seq<char>) -> Seq<char> {
    match uuid_parse(text) {
        Ok(_) => Seq::empty(),
        Err(e) => e,
    }
}

/// A character of a hyphenated lowercase UUID text.
pub open spec fn is_uuid_char(c: char) -> bool {
    ('0' <= c <= '9') || ('a' <= c <= 'f') || c == '-'
}

/// A random UUID of version 4 (RFC 9562): its version field (bits 76 to 79
/// of the value) holds 4 and its variant field (bits 62 and 63) holds the
/// RFC variant `10`; all its other bits are random.
pub open spec fn is_v4_uuid(value: u128) -> bool {
    value & 0x0000_0000_0000_F000_C000_0000_0000_0000u128 == 0x0000_0000_0000_4000_8000_0000_0000_0000u128
}

/// A fresh random UUID, made by `lambda_appsync::ID::new`, that is
/// `uuid::Uuid::new_v4`, which masks random bits and sets the version to 4
/// and the variant to the RFC one. Claimed: the value is a version 4 UUID;
/// which one is left unsaid (it is random).
#[verifier::external_body]
fn random_uuid() -> (r: u128)
    ensures
        is_v4_uuid(r),
{
    lambda_appsync::ID::new().as_u128()
}

/// The hyphenated lowercase text of a UUID, as `uuid::Uuid`'s `Display`
/// writes it (the `Display` of `lambda_appsync::ID` forwards to it). Claimed:
/// the text is `uuid_text(value)`, 36 characters that are lowercase
/// hexadecimal digits or hyphens, and `uuid::Uuid::parse_str` reads `value`
/// back from it.
#[verifier::external_body]
fn uuid_to_text(value: u128) -> (r: String)
    ensures
        r@ == uuid_text(value),
        r@.len() == 36,
        forall|i: int| 0 <= i < r@.len() ==> is_uuid_char(#[trigger] r@[i]),
        parsed_uuid(r@) == Some(value),
{
    uuid::Uuid::from_u128(value).to_string()
}

/// Reads a UUID with `FromStr` of `lambda_appsync::ID` (that is,
/// `uuid::Uuid::parse_str`, whose error it forwards). Claimed: the result,
/// the value read or the text of the `uuid::Error`, is named
/// `uuid_parse(text)`.
#[verifier::external_body]
fn uuid_from_text(text: &str) -> (r: Result<u128, String>)
    ensures
        match r {
            Ok(v) => uuid_parse(text@) == Ok::<u128, Seq<char>>(v),
            Err(e) => uuid_parse(text@) == Err::<u128, Seq<char>>(e@),
        },
{
    match text.parse::<lambda_appsync::ID>() {
        Ok(id) => Ok(id.as_u128()),
        Err(e) => Err(e.to_string()),
    }
}

impl Id {
    /// A fresh random identifier: a version 4 UUID.
    pub fn new() -> (r: Id)
        ensures
            is_v4_uuid(r.value),
    {
        Id { value: random_uuid() }
    }

    /// The text of the identifier: its hyphenated lowercase UUID form.
    pub fn to_text(&self) -> (r: String)
        ensures
            r@ == uuid_text(self.value),
            r@.len() == 36,
            forall|i: int| 0 <= i < r@.len() ==> is_uuid_char(#[trigger] r@[i]),
            parsed_uuid(r@) == Some(self.value),
    {
        uuid_to_text(self.value)
    }

    /// Reads an identifier from its text; the error is the text of the
    /// parser's error.
    pub fn parse(text: &str) -> (r: Result<Id, String>)
        ensures
            match r {
                Ok(id) => parsed_uuid(text@) == Some(id.value),
                Err(e) => parsed_uuid(text@) is None && e@ == uuid_error_text(text@),
            },
    {
        match uuid_from_text(text) {
            Ok(value) => Ok(Id { value }),
            Err(e) => Err(e),
        }
    }
}

/// A yak, known by its identifier.
#[derive(Debug, Clone, Copy, PartialEq, Eq, Structural)]
pub struct Yak {
    pub id: Id,
}

impl Yak {
    pub const TYPE: &'static str = "YAK";

    /// A new yak with a fresh random identifier: a version 4 UUID.
    pub fn new() -> (r: Yak)
        ensures
            is_v4_uuid(r.id.value),
    {
        Yak { id: Id::new() }
    }
}

} // verus!
