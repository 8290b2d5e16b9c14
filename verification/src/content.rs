//! What maps add up to: the contents that are hashed, and label selectors.

use vstd::prelude::*;

use crate::order;
use crate::outside;
use crate::text_map::TextMap;

use operator_framework::tracker::ConfigTracker;

verus! {

/// The values of a map, in the order of their keys.
pub open spec fn values<V>(map: Map<Seq<char>, V>) -> Seq<V> {
    order::in_order(map.dom()).map_values(|k: Seq<char>| map[k])
}

/// What is hashed of texts: their values in the order of the keys, in UTF-8.
pub open spec fn text_content(data: Option<Map<Seq<char>, Seq<char>>>) -> Seq<u8> {
    match data {
        Some(map) => outside::text_bytes(values(map)),
        None => Seq::empty(),
    }
}

/// What is hashed of secret data: the values in the order of the keys.
pub open spec fn byte_content(data: Option<Map<Seq<char>, Seq<u8>>>) -> Seq<u8> {
    match data {
        Some(map) => values(map).flatten(),
        None => Seq::empty(),
    }
}

/// Hashes texts, where there are any.
pub fn track_texts(tracker: &mut ConfigTracker, data: &Option<TextMap<String>>)
    ensures
        outside::taken_in(*final(tracker)) == outside::taken_in(*old(tracker)) + text_content(data.deep_view()),
{
    if let Some(map) = data {
        let entries = map.entries();
        outside::track_texts(tracker, entries);
        assert(entries@.map_values(|e: (String, String)| e.1@) =~= values(map.deep_view())) by {
            assert(map.deep_view().dom() =~= map@.dom());
        }
    }
}

/// Hashes secret data, where there is any.
pub fn track_bytes(tracker: &mut ConfigTracker, data: &Option<TextMap<Vec<u8>>>)
    ensures
        outside::taken_in(*final(tracker)) == outside::taken_in(*old(tracker)) + byte_content(data.deep_view()),
{
    if let Some(map) = data {
        let entries = map.entries();
        outside::track_bytes(tracker, entries);
        assert(entries@.map_values(|e: (String, Vec<u8>)| e.1@) =~= values(map.deep_view())) by {
            assert(map.deep_view().dom() =~= map@.dom());
            assert forall|v: Vec<u8>| #[trigger] v.deep_view() == v@ by {
                assert(v.deep_view() =~= v@);
            }
        }
    }
}

/// The selector that asks for all of the labels.
pub open spec fn selector_text(labels: Map<Seq<char>, Seq<char>>) -> Seq<char> {
    outside::joined(
        order::in_order(labels.dom()).map_values(|k: Seq<char>| k + "="@ + labels[k]),
        ","@,
    )
}

/// The selector that asks for all of the labels.
pub fn to_selector(labels: &TextMap<String>) -> (r: String)
    ensures
        r@ == selector_text(labels.deep_view()),
{
    let entries = labels.entries();
    let r = outside::to_selector(entries);
    assert(entries@.map_values(|e: (String, String)| e.0@ + "="@ + e.1@) =~= order::in_order(
        labels.deep_view().dom(),
    ).map_values(|k: Seq<char>| k + "="@ + labels.deep_view()[k])) by {
        assert(labels.deep_view().dom() =~= labels@.dom());
    }
    r
}

} // verus!
