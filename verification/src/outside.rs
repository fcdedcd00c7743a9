//! The calls that leave the library: `uuid`, `hostname`, and the parts of std
//! that Verus has no specification for.

use std::collections::hash_map::DefaultHasher;
use std::hash::Hash;
use std::time::{Duration, SystemTime};
use vstd::prelude::*;

use crate::text::{uuid_hyphenated, writes_uuid};

verus! {

/// [`std::time::SystemTime`], carried opaquely from the clock to [`since_epoch`].
#[verifier::external_type_specification]
#[verifier::external_body]
pub struct ExSystemTime(std::time::SystemTime);

/// [`std::time::SystemTime::now`]: the clock. Nothing is claimed of what it reads.
pub assume_specification[ std::time::SystemTime::now ]() -> (now: SystemTime);

/// [`std::time::Duration::as_secs`]: the whole seconds of a duration. A
/// `Duration` is opaque here, so nothing is claimed of their number.
pub assume_specification[ std::time::Duration::as_secs ](d: &Duration) -> (secs: u64);

/// [`std::time::SystemTime::duration_since`] of the Unix epoch, `None` for a
/// time before it. A `SystemTime` is opaque here, so nothing is claimed of the
/// result.
#[verifier::external_body]
pub(crate) fn since_epoch(time: SystemTime) -> (elapsed: Option<Duration>) {
    time.duration_since(std::time::UNIX_EPOCH).ok()
}

/// [`String::push`] appends one character.
pub assume_specification[ String::push ](s: &mut String, c: char)
    ensures
        final(s)@ == old(s)@.push(c),
;

/// [`String::from`] of a `str` has the same characters.
pub assume_specification<'a>[ <String as From<&'a str>>::from ](s: &str) -> (owned: String)
    ensures
        owned@ == s@,
;

/// [`String::from_utf8`] accepts exactly the byte sequences that are valid
/// UTF-8, and gives the characters they encode.
#[verifier::external_body]
pub(crate) fn text_from_utf8(bytes: Vec<u8>) -> (text: Option<String>)
    ensures
        text is Some <==> vstd::utf8::valid_utf8(bytes@),
        text matches Some(t) ==> t@ == vstd::utf8::decode_utf8(bytes@),
{
    String::from_utf8(bytes).ok()
}

/// What hashing a `str` of these characters writes to a hasher.
pub uninterp spec fn str_hash_writes(text: Seq<char>) -> Seq<Seq<u8>>;

/// [`Hash::hash`] of a `str` feeds the hasher a series of writes that depends on
/// the text alone.
#[verifier::external_body]
pub(crate) fn hash_text(text: &str, hasher: &mut DefaultHasher)
    ensures
        final(hasher)@ == old(hasher)@ + str_hash_writes(text@),
{
    text.hash(hasher)
}

/// [`hostname::get`]: the name of the machine, with what is not Unicode in it
/// replaced, and `None` where the system gives none. It depends on the machine,
/// so nothing is claimed of it.
#[verifier::external_body]
pub(crate) fn host_name() -> (name: Option<String>) {
    hostname::get().ok().map(|name| name.to_string_lossy().to_string())
}

/// [`uuid::Error`], why a text is no UUID.
#[verifier::external_type_specification]
#[verifier::external_body]
pub struct ExUuidError(uuid::Error);

/// Whether the bits of `v` mark it as a random UUID: version 4 of the RFC 9562
/// variant.
pub open spec fn is_random_uuid(v: u128) -> bool {
    (v >> 76u128) & 0xf == 4 && (v >> 62u128) & 0x3 == 2
}

/// [`uuid::Uuid::new_v4`]: a random UUID, as the number its bytes spell, the most
/// significant first. Of the random bits nothing is claimed.
#[verifier::external_body]
pub(crate) fn random_uuid() -> (v: u128)
    ensures
        is_random_uuid(v),
{
    uuid::Uuid::new_v4().as_u128()
}

/// The display of [`uuid::Uuid`] is the hyphenated form in small letters.
#[verifier::external_body]
pub(crate) fn uuid_to_text(v: u128) -> (text: String)
    ensures
        text@ == uuid_hyphenated(v),
{
    uuid::Uuid::from_u128(v).to_string()
}

/// [`uuid::Uuid::parse_str`] accepts the four written forms of a UUID, in letters
/// of either case, and nothing else. Of the error nothing is claimed but when it
/// comes.
#[verifier::external_body]
pub(crate) fn uuid_from_text(text: &str) -> (parsed: Result<u128, uuid::Error>)
    ensures
        parsed matches Ok(v) ==> writes_uuid(text@, v),
        parsed is Err ==> forall|v: u128| !writes_uuid(text@, v),
{
    uuid::Uuid::parse_str(text).map(|id| id.as_u128())
}

} // verus!
