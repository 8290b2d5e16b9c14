//! The order of text keys: lexicographic by the bytes of their UTF-8 encoding.

use vstd::prelude::*;
use vstd::utf8::*;

verus! {

/// Byte strings in lexicographic order, strictly.
pub open spec fn bytes_before(a: Seq<u8>, b: Seq<u8>) -> bool
    decreases b.len(),
{
    if b.len() == 0 {
        false
    } else if a.len() == 0 {
        true
    } else if a[0] != b[0] {
        a[0] < b[0]
    } else {
        bytes_before(a.drop_first(), b.drop_first())
    }
}

/// `a` comes strictly before `b`, as `str` orders them.
pub open spec fn text_before(a: Seq<char>, b: Seq<char>) -> bool {
    bytes_before(encode_utf8(a), encode_utf8(b))
}

/// `keys` is in strictly ascending order (so nothing occurs twice).
pub open spec fn ascending(keys: Seq<Seq<char>>) -> bool {
    forall|i: int, j: int| 0 <= i < j < keys.len() ==> text_before(#[trigger] keys[i], #[trigger] keys[j])
}

/// `keys` lists exactly the members of `set`, in ascending order.
pub open spec fn lists(keys: Seq<Seq<char>>, set: Set<Seq<char>>) -> bool {
    &&& ascending(keys)
    &&& forall|k: Seq<char>| #[trigger] set.contains(k) <==> keys.contains(k)
}

/// The members of a finite set of texts, in ascending order.
pub open spec fn in_order(set: Set<Seq<char>>) -> Seq<Seq<char>> {
    choose|keys: Seq<Seq<char>>| lists(keys, set)
}

proof fn lemma_bytes_irreflexive(a: Seq<u8>)
    ensures
        !bytes_before(a, a),
    decreases a.len(),
{
    if a.len() > 0 {
        lemma_bytes_irreflexive(a.drop_first());
    }
}

proof fn lemma_bytes_transitive(a: Seq<u8>, b: Seq<u8>, c: Seq<u8>)
    requires
        bytes_before(a, b),
        bytes_before(b, c),
    ensures
        bytes_before(a, c),
    decreases c.len(),
{
    if a.len() > 0 && a[0] == b[0] && b[0] == c[0] {
        lemma_bytes_transitive(a.drop_first(), b.drop_first(), c.drop_first());
    }
}

proof fn lemma_bytes_total(a: Seq<u8>, b: Seq<u8>)
    ensures
        a == b || bytes_before(a, b) || bytes_before(b, a),
    decreases a.len(),
{
    if a.len() == 0 || b.len() == 0 {
        assert(a.len() == 0 && b.len() == 0 ==> a =~= b);
    } else if a[0] == b[0] {
        lemma_bytes_total(a.drop_first(), b.drop_first());
        if a.drop_first() == b.drop_first() {
            assert(a =~= seq![a[0]] + a.drop_first());
            assert(b =~= seq![b[0]] + b.drop_first());
        }
    }
}

/// No text comes before itself.
pub proof fn lemma_text_irreflexive(a: Seq<char>)
    ensures
        !text_before(a, a),
{
    lemma_bytes_irreflexive(encode_utf8(a));
}

/// The order of texts is transitive.
pub proof fn lemma_text_transitive(a: Seq<char>, b: Seq<char>, c: Seq<char>)
    requires
        text_before(a, b),
        text_before(b, c),
    ensures
        text_before(a, c),
{
    lemma_bytes_transitive(encode_utf8(a), encode_utf8(b), encode_utf8(c));
}

/// Of two different texts one comes before the other.
pub proof fn lemma_text_total(a: Seq<char>, b: Seq<char>)
    ensures
        a == b || text_before(a, b) || text_before(b, a),
{
    lemma_bytes_total(encode_utf8(a), encode_utf8(b));
    encode_utf8_decode_utf8(a);
    encode_utf8_decode_utf8(b);
}

/// A set of texts has at most one ascending listing.
pub proof fn lemma_listing_unique(a: Seq<Seq<char>>, b: Seq<Seq<char>>, set: Set<Seq<char>>)
    requires
        lists(a, set),
        lists(b, set),
    ensures
        a == b,
    decreases a.len(),
{
    if a.len() == 0 {
        if b.len() > 0 {
            assert(b.contains(b[0]));
            assert(set.contains(b[0]));
            assert(a.contains(b[0]));
        }
        assert(a =~= b);
    } else {
        assert(a.contains(a[0]));
        assert(set.contains(a[0]));
        assert(b.contains(a[0]));
        assert(b.contains(b[0]));
        assert(set.contains(b[0]));
        assert(a.contains(b[0]));
        let i = choose|i: int| 0 <= i < b.len() && b[i] == a[0];
        let j = choose|j: int| 0 <= j < a.len() && a[j] == b[0];
        if a[0] != b[0] {
            lemma_text_transitive(a[0], b[0], a[0]);
            lemma_text_irreflexive(a[0]);
        }
        let rest = set.remove(a[0]);
        lemma_listing_tail(a, set);
        lemma_listing_tail(b, set);
        lemma_listing_unique(a.drop_first(), b.drop_first(), rest);
        assert(a =~= seq![a[0]] + a.drop_first());
        assert(b =~= seq![b[0]] + b.drop_first());
    }
}

proof fn lemma_listing_tail(a: Seq<Seq<char>>, set: Set<Seq<char>>)
    requires
        lists(a, set),
        a.len() > 0,
    ensures
        lists(a.drop_first(), set.remove(a[0])),
{
    let tail = a.drop_first();
    let rest = set.remove(a[0]);
    assert forall|k: Seq<char>| #[trigger] rest.contains(k) <==> tail.contains(k) by {
        if rest.contains(k) {
            assert(set.contains(k));
            let i = choose|i: int| 0 <= i < a.len() && a[i] == k;
            assert(tail[i - 1] == k);
        }
        if tail.contains(k) {
            let i = choose|i: int| 0 <= i < tail.len() && tail[i] == k;
            assert(a[i + 1] == k);
            assert(a.contains(k));
            assert(set.contains(k));
            lemma_text_irreflexive(k);
        }
    }
}

/// A listing is what `in_order` names.
pub proof fn lemma_in_order(keys: Seq<Seq<char>>, set: Set<Seq<char>>)
    requires
        lists(keys, set),
    ensures
        in_order(set) == keys,
{
    lemma_listing_unique(in_order(set), keys, set);
}

/// An ascending list with one more key in its place.
spec fn with_key(keys: Seq<Seq<char>>, key: Seq<char>) -> Seq<Seq<char>>
    decreases keys.len(),
{
    if keys.len() == 0 {
        seq![key]
    } else if text_before(key, keys[0]) {
        seq![key] + keys
    } else {
        seq![keys[0]] + with_key(keys.drop_first(), key)
    }
}

proof fn lemma_with_key(keys: Seq<Seq<char>>, key: Seq<char>)
    requires
        ascending(keys),
        !keys.contains(key),
    ensures
        ascending(with_key(keys, key)),
        forall|k: Seq<char>| #[trigger] with_key(keys, key).contains(k) <==> keys.contains(k) || k == key,
    decreases keys.len(),
{
    let after = with_key(keys, key);
    if keys.len() == 0 {
        assert(after[0] == key);
    } else if text_before(key, keys[0]) {
        assert(after[0] == key);
        assert forall|i: int, j: int| 0 <= i < j < after.len() implies text_before(#[trigger] after[i], #[trigger] after[j]) by {
            assert(after[j] == keys[j - 1]);
            if i > 0 {
                assert(after[i] == keys[i - 1]);
            } else if j > 1 {
                lemma_text_transitive(key, keys[0], keys[j - 1]);
            }
        }
        assert forall|k: Seq<char>| #[trigger] after.contains(k) <==> keys.contains(k) || k == key by {
            if keys.contains(k) {
                assert(after[keys.index_of(k) + 1] == k);
            }
            if after.contains(k) && k != key {
                assert(keys[after.index_of(k) - 1] == k);
            }
        }
    } else {
        let first = keys[0];
        let tail = keys.drop_first();
        let rest = with_key(tail, key);
        assert(keys.contains(first));
        assert forall|k: Seq<char>| #[trigger] tail.contains(k) implies keys.contains(k) by {
            assert(keys[tail.index_of(k) + 1] == k);
        }
        lemma_text_total(first, key);
        lemma_with_key(tail, key);
        assert forall|i: int, j: int| 0 <= i < j < after.len() implies text_before(#[trigger] after[i], #[trigger] after[j]) by {
            assert(after[j] == rest[j - 1]);
            if i > 0 {
                assert(after[i] == rest[i - 1]);
            } else {
                assert(rest.contains(rest[j - 1]));
                if rest[j - 1] != key {
                    let p = tail.index_of(rest[j - 1]);
                    assert(keys[p + 1] == rest[j - 1]);
                }
            }
        }
        assert forall|k: Seq<char>| #[trigger] after.contains(k) <==> keys.contains(k) || k == key by {
            if k == first {
                assert(after[0] == k);
            } else {
                if rest.contains(k) {
                    assert(after[rest.index_of(k) + 1] == k);
                }
                if after.contains(k) {
                    assert(rest[after.index_of(k) - 1] == k);
                }
                if keys.contains(k) {
                    assert(tail[keys.index_of(k) - 1] == k);
                }
            }
        }
    }
}

/// The members of a finite set can be listed in order.
pub proof fn lemma_finite_in_order(set: Set<Seq<char>>)
    requires
        set.finite(),
    ensures
        lists(in_order(set), set),
    decreases set.len(),
{
    if set.len() == 0 {
        assert(set =~= Set::empty());
        assert(lists(Seq::empty(), set));
    } else {
        let key = set.choose();
        let rest = set.remove(key);
        lemma_finite_in_order(rest);
        let keys = in_order(rest);
        assert(!rest.contains(key));
        lemma_with_key(keys, key);
        let all = with_key(keys, key);
        assert forall|k: Seq<char>| #[trigger] set.contains(k) <==> all.contains(k) by {
            assert(rest.contains(k) <==> keys.contains(k));
        }
        assert(lists(all, set));
    }
}

/// Whether `a` comes strictly before `b`.
pub fn is_before(a: &str, b: &str) -> (r: bool)
    ensures
        r == text_before(a@, b@),
{
    let x = a.as_bytes();
    let y = b.as_bytes();
    let mut i: usize = 0;
    proof {
        assert(x@.skip(0) =~= x@);
        assert(y@.skip(0) =~= y@);
    }
    while i < x.len() && i < y.len()
        invariant
            i <= x@.len(),
            i <= y@.len(),
            x@ == encode_utf8(a@),
            y@ == encode_utf8(b@),
            bytes_before(x@, y@) == bytes_before(x@.skip(i as int), y@.skip(i as int)),
        decreases x@.len() - i,
    {
        if x[i] != y[i] {
            return x[i] < y[i];
        }
        proof {
            assert(x@.skip(i as int).drop_first() =~= x@.skip(i + 1));
            assert(y@.skip(i as int).drop_first() =~= y@.skip(i + 1));
        }
        i = i + 1;
    }
    i < y.len()
}

/// Whether `a` and `b` are the same text.
pub fn is_same(a: &str, b: &str) -> (r: bool)
    ensures
        r == (a@ == b@),
{
    proof {
        lemma_text_total(a@, b@);
        lemma_text_irreflexive(a@);
    }
    !is_before(a, b) && !is_before(b, a)
}

} // verus!
