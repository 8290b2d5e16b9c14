//! What is taken from other crates: the contracts here are believed, not proved.

use std::collections::BTreeMap;
use vstd::prelude::*;
use vstd::utf8::encode_utf8;

use operator_framework::selectors::ToSelector;
use operator_framework::tracker::Trackable;

use crate::order;
use crate::text_map;

verus! {

/// A JSON value of `serde_json`. It is carried along and never looked into.
#[verifier::external_type_specification]
#[verifier::external_body]
pub struct ExJson(serde_json::Value);

/// The tracker of `operator_framework`, which takes in contents and gives a hash of them.
#[verifier::external_type_specification]
#[verifier::external_body]
pub struct ExConfigTracker(operator_framework::tracker::ConfigTracker);

/// The bytes that a tracker has taken in so far, in the order in which they came.
pub uninterp spec fn taken_in(tracker: operator_framework::tracker::ConfigTracker) -> Seq<u8>;

/// The hash that a tracker gives for the bytes it has taken in.
pub uninterp spec fn digest(bytes: Seq<u8>) -> Seq<char>;

/// The texts of a list, one after the other, in UTF-8.
pub open spec fn text_bytes(texts: Seq<Seq<char>>) -> Seq<u8> {
    texts.map_values(|text: Seq<char>| encode_utf8(text)).flatten()
}

/// The parts of a text, with a separator between them.
pub open spec fn joined(parts: Seq<Seq<char>>, separator: Seq<char>) -> Seq<char>
    decreases parts.len(),
{
    if parts.len() == 0 {
        Seq::empty()
    } else if parts.len() == 1 {
        parts[0]
    } else {
        joined(parts.drop_last(), separator) + separator + parts.last()
    }
}

/// A decimal digit or a small letter of the English alphabet.
pub open spec fn is_plain(c: char) -> bool {
    ('0' <= c && c <= '9') || ('a' <= c && c <= 'z')
}

/// `ConfigTracker::new` of `operator_framework`: a new tracker has taken in nothing.
pub assume_specification[ operator_framework::tracker::ConfigTracker::new ]() -> (r:
    operator_framework::tracker::ConfigTracker)
    ensures
        taken_in(r) == Seq::<u8>::empty(),
;

/// `ConfigTracker::current_hash` of `operator_framework`: a function of the bytes taken in so far.
pub assume_specification[ operator_framework::tracker::ConfigTracker::current_hash ](
    tracker: &operator_framework::tracker::ConfigTracker,
) -> (r: String)
    ensures
        r@ == digest(taken_in(*tracker)),
;

/// `Trackable::track_with` of `operator_framework`, for a map from text to text: the tracker takes
/// in the values in the order of their keys, each in UTF-8, and not the keys.
#[verifier::external_body]
pub(crate) fn track_texts(tracker: &mut operator_framework::tracker::ConfigTracker, entries: &Vec<(String, String)>)
    requires
        order::ascending(text_map::keys_of(entries@)),
    ensures
        taken_in(*final(tracker)) == taken_in(*old(tracker)) + text_bytes(
            entries@.map_values(|e: (String, String)| e.1@),
        ),
{
    let data: BTreeMap<String, String> = entries.iter().cloned().collect();
    data.track_with(tracker);
}

/// `Trackable::track_with` of `operator_framework`, for a map from text to bytes: the tracker takes
/// in the values in the order of their keys, and not the keys.
#[verifier::external_body]
pub(crate) fn track_bytes(tracker: &mut operator_framework::tracker::ConfigTracker, entries: &Vec<(String, Vec<u8>)>)
    requires
        order::ascending(text_map::keys_of(entries@)),
    ensures
        taken_in(*final(tracker)) == taken_in(*old(tracker)) + entries@.map_values(
            |e: (String, Vec<u8>)| e.1@,
        ).flatten(),
{
    let data: BTreeMap<String, k8s_openapi::ByteString> =
        entries.iter().map(|e| (e.0.clone(), k8s_openapi::ByteString(e.1.clone()))).collect();
    data.track_with(tracker);
}

/// `ToSelector::to_selector` of `operator_framework`, for a map from text to text: every entry as
/// key, equals sign and value, in the order of the keys, with commas between them.
#[verifier::external_body]
pub(crate) fn to_selector(entries: &Vec<(String, String)>) -> (r: String)
    requires
        order::ascending(text_map::keys_of(entries@)),
    ensures
        r@ == joined(entries@.map_values(|e: (String, String)| e.0@ + "="@ + e.1@), ","@),
{
    let labels: BTreeMap<String, String> = entries.iter().cloned().collect();
    labels.to_selector()
}

/// `PasswordGenerator::generate_one` of `passwords`, with the standard choice of characters: a
/// random password of that length made of digits and small letters; an error for no length at all.
/// A length that no text can have is left out.
#[verifier::external_body]
pub(crate) fn generate_password(length: usize) -> (r: Result<String, &'static str>)
    requires
        length <= isize::MAX,
    ensures
        r is Err <==> length == 0,
        r matches Ok(password) ==> password@.len() == length && forall|i: int|
            0 <= i < length ==> is_plain(#[trigger] password@[i]),
{
    passwords::PasswordGenerator { length, ..Default::default() }.generate_one()
}

} // verus!
