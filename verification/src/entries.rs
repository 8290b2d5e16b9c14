//! Lists whose entries are found by name.

use vstd::prelude::*;

verus! {

/// An entry of a list that is looked up by its name.
pub trait Entry: DeepView + Sized {
    /// The entry goes by `name`.
    spec fn goes_by(entry: Self::V, name: Seq<char>) -> bool;

    /// A new entry of that name, with nothing else written to it.
    spec fn blank_entry(name: Seq<char>) -> Self::V;

    /// A new entry goes by its name.
    proof fn lemma_blank_entry(name: Seq<char>)
        ensures
            Self::goes_by(Self::blank_entry(name), name),
    ;

    /// Whether the entry goes by `name`.
    fn is_named(&self, name: &str) -> (r: bool)
        ensures
            r == Self::goes_by(self.deep_view(), name@),
    ;

    /// A new entry of that name, with nothing else written to it.
    fn named(name: &str) -> (r: Self)
        ensures
            r.deep_view() == Self::blank_entry(name@),
    ;
}

/// The position of the first entry of that name; the length of the list if there is none.
pub open spec fn position<T: Entry>(list: Seq<T::V>, name: Seq<char>) -> int
    decreases list.len(),
{
    if list.len() == 0 {
        0
    } else if T::goes_by(list[0], name) {
        0
    } else {
        1 + position::<T>(list.drop_first(), name)
    }
}

/// The list holds an entry of that name.
pub open spec fn holds<T: Entry>(list: Seq<T::V>, name: Seq<char>) -> bool {
    position::<T>(list, name) < list.len()
}

/// The first entry of that name.
pub open spec fn entry<T: Entry>(list: Seq<T::V>, name: Seq<char>) -> T::V {
    list[position::<T>(list, name)]
}

/// The list with `change` made to the first entry of that name, or to a new one at the end.
pub open spec fn applied<T: Entry>(list: Seq<T::V>, name: Seq<char>, change: spec_fn(T::V) -> T::V) -> Seq<T::V> {
    let at = position::<T>(list, name);
    if at < list.len() {
        list.update(at, change(list[at]))
    } else {
        list.push(change(T::blank_entry(name)))
    }
}

/// The list without the entries of that name.
pub open spec fn dropped<T: Entry>(list: Seq<T::V>, name: Seq<char>) -> Seq<T::V> {
    list.filter(|e: T::V| !T::goes_by(e, name))
}

/// What `position` finds: nothing of that name is in front of it.
pub proof fn lemma_position<T: Entry>(list: Seq<T::V>, name: Seq<char>)
    ensures
        0 <= position::<T>(list, name) <= list.len(),
        forall|i: int| 0 <= i < position::<T>(list, name) ==> !T::goes_by(#[trigger] list[i], name),
        position::<T>(list, name) < list.len() ==> T::goes_by(list[position::<T>(list, name)], name),
    decreases list.len(),
{
    if list.len() > 0 && !T::goes_by(list[0], name) {
        let tail = list.drop_first();
        lemma_position::<T>(tail, name);
        assert forall|i: int| 0 <= i < position::<T>(list, name) implies !T::goes_by(#[trigger] list[i], name) by {
            if i > 0 {
                assert(list[i] == tail[i - 1]);
            }
        }
    }
}

/// The first entry of a name is where `position` says.
pub proof fn lemma_position_is<T: Entry>(list: Seq<T::V>, name: Seq<char>, at: int)
    requires
        0 <= at <= list.len(),
        forall|i: int| 0 <= i < at ==> !T::goes_by(#[trigger] list[i], name),
        at < list.len() ==> T::goes_by(list[at], name),
    ensures
        position::<T>(list, name) == at,
{
    lemma_position::<T>(list, name);
    let p = position::<T>(list, name);
    if p < at {
        assert(!T::goes_by(list[p], name));
    }
}

/// A change that keeps the name leaves an entry of that name, changed, and no other entry different.
pub proof fn lemma_applied<T: Entry>(list: Seq<T::V>, name: Seq<char>, change: spec_fn(T::V) -> T::V)
    requires
        forall|e: T::V| T::goes_by(e, name) ==> #[trigger] T::goes_by(change(e), name),
    ensures
        holds::<T>(applied::<T>(list, name, change), name),
        position::<T>(applied::<T>(list, name, change), name) == position::<T>(list, name),
        entry::<T>(applied::<T>(list, name, change), name) == change(
            if holds::<T>(list, name) {
                entry::<T>(list, name)
            } else {
                T::blank_entry(name)
            },
        ),
{
    lemma_position::<T>(list, name);
    T::lemma_blank_entry(name);
    lemma_position_is::<T>(applied::<T>(list, name, change), name, position::<T>(list, name));
}

/// A change that has been made is not made again.
pub proof fn lemma_applied_again<T: Entry>(list: Seq<T::V>, name: Seq<char>, change: spec_fn(T::V) -> T::V)
    requires
        holds::<T>(list, name),
        change(entry::<T>(list, name)) == entry::<T>(list, name),
    ensures
        applied::<T>(list, name, change) == list,
{
    lemma_position::<T>(list, name);
    assert(applied::<T>(list, name, change) =~= list);
}

/// A change to one entry leaves the entries of other names alone.
pub proof fn lemma_applied_other<T: Entry>(
    list: Seq<T::V>,
    name: Seq<char>,
    change: spec_fn(T::V) -> T::V,
    other: Seq<char>,
)
    requires
        forall|e: T::V| T::goes_by(e, name) ==> !#[trigger] T::goes_by(change(e), other),
        forall|e: T::V| T::goes_by(e, name) ==> !#[trigger] T::goes_by(e, other),
    ensures
        holds::<T>(applied::<T>(list, name, change), other) == holds::<T>(list, other),
        holds::<T>(list, other) ==> entry::<T>(applied::<T>(list, name, change), other) == entry::<T>(list, other),
{
    lemma_position::<T>(list, name);
    lemma_position::<T>(list, other);
    T::lemma_blank_entry(name);
    let after = applied::<T>(list, name, change);
    let at = position::<T>(list, other);
    if at < list.len() {
        assert(after[at] == list[at]);
        assert forall|i: int| 0 <= i < at implies !T::goes_by(#[trigger] after[i], other) by {
            assert(!T::goes_by(list[i], other));
        }
        lemma_position_is::<T>(after, other, at);
    } else {
        assert forall|i: int| 0 <= i < after.len() implies !T::goes_by(#[trigger] after[i], other) by {
            if i < list.len() {
                assert(!T::goes_by(list[i], other));
            }
        }
        lemma_position_is::<T>(after, other, after.len() as int);
    }
}

/// What has been dropped is not found, and dropping it again changes nothing.
pub proof fn lemma_dropped<T: Entry>(list: Seq<T::V>, name: Seq<char>)
    ensures
        !holds::<T>(dropped::<T>(list, name), name),
        dropped::<T>(dropped::<T>(list, name), name) == dropped::<T>(list, name),
{
    let keep = |e: T::V| !T::goes_by(e, name);
    let after = dropped::<T>(list, name);
    broadcast use vstd::seq_lib::group_filter_ensures;

    assert forall|i: int| 0 <= i < after.len() implies !T::goes_by(#[trigger] after[i], name) by {
        assert(keep(after[i]));
    }
    lemma_position_is::<T>(after, name, after.len() as int);
    lemma_nothing_to_drop::<T>(after, name);
}

/// Dropping a name that does not occur changes nothing.
pub proof fn lemma_nothing_to_drop<T: Entry>(list: Seq<T::V>, name: Seq<char>)
    requires
        forall|i: int| 0 <= i < list.len() ==> !T::goes_by(#[trigger] list[i], name),
    ensures
        dropped::<T>(list, name) == list,
    decreases list.len(),
{
    reveal(Seq::filter);
    if list.len() > 0 {
        assert forall|i: int| 0 <= i < list.drop_last().len() implies !T::goes_by(
            #[trigger] list.drop_last()[i],
            name,
        ) by {
            assert(list.drop_last()[i] == list[i]);
        }
        lemma_nothing_to_drop::<T>(list.drop_last(), name);
        assert(!T::goes_by(list[list.len() - 1], name));
        assert(list.drop_last().push(list.last()) =~= list);
    } else {
        assert(dropped::<T>(list, name) =~= list);
    }
}

/// The first entry of that name is as `change` leaves it.
pub open spec fn settled<T: Entry>(list: Seq<T::V>, name: Seq<char>, change: spec_fn(T::V) -> T::V) -> bool {
    holds::<T>(list, name) && change(entry::<T>(list, name)) == entry::<T>(list, name)
}

/// A change that keeps the name, and does nothing the second time, settles the entry.
pub proof fn lemma_settles<T: Entry>(list: Seq<T::V>, name: Seq<char>, change: spec_fn(T::V) -> T::V)
    requires
        forall|e: T::V| T::goes_by(e, name) ==> #[trigger] T::goes_by(change(e), name),
        forall|e: T::V| #[trigger] change(change(e)) == change(e),
    ensures
        settled::<T>(applied::<T>(list, name, change), name, change),
{
    lemma_applied::<T>(list, name, change);
}

/// An entry stays settled when one of another name is changed.
pub proof fn lemma_settled_other<T: Entry>(
    list: Seq<T::V>,
    name: Seq<char>,
    change: spec_fn(T::V) -> T::V,
    other: Seq<char>,
    other_change: spec_fn(T::V) -> T::V,
)
    requires
        settled::<T>(list, name, change),
        forall|e: T::V| T::goes_by(e, other) ==> !#[trigger] T::goes_by(other_change(e), name),
        forall|e: T::V| T::goes_by(e, other) ==> !#[trigger] T::goes_by(e, name),
    ensures
        settled::<T>(applied::<T>(list, other, other_change), name, change),
{
    lemma_applied_other::<T>(list, other, other_change, name);
}

/// What is found in a list with one more entry at the end.
proof fn lemma_found_after_push<T: Entry>(list: Seq<T::V>, e: T::V, name: Seq<char>)
    ensures
        holds::<T>(list.push(e), name) == (holds::<T>(list, name) || T::goes_by(e, name)),
        holds::<T>(list.push(e), name) ==> entry::<T>(list.push(e), name) == if holds::<T>(list, name) {
            entry::<T>(list, name)
        } else {
            e
        },
{
    lemma_position::<T>(list, name);
    let more = list.push(e);
    let at = position::<T>(list, name);
    assert forall|i: int| 0 <= i < at implies !T::goes_by(#[trigger] more[i], name) by {
        assert(!T::goes_by(list[i], name));
    }
    if at < list.len() || T::goes_by(e, name) {
        lemma_position_is::<T>(more, name, at);
    } else {
        assert forall|i: int| 0 <= i < more.len() implies !T::goes_by(#[trigger] more[i], name) by {
            if i < list.len() {
                assert(!T::goes_by(list[i], name));
            }
        }
        lemma_position_is::<T>(more, name, more.len() as int);
    }
}

/// Dropping a name leaves what is found by another one alone.
pub proof fn lemma_found_after_drop<T: Entry>(list: Seq<T::V>, dropped_name: Seq<char>, name: Seq<char>)
    requires
        forall|e: T::V| T::goes_by(e, dropped_name) ==> !#[trigger] T::goes_by(e, name),
    ensures
        holds::<T>(dropped::<T>(list, dropped_name), name) == holds::<T>(list, name),
        holds::<T>(list, name) ==> entry::<T>(dropped::<T>(list, dropped_name), name) == entry::<T>(list, name),
    decreases list.len(),
{
    reveal(Seq::filter);
    if list.len() > 0 {
        let front = list.drop_last();
        let last = list.last();
        lemma_found_after_drop::<T>(front, dropped_name, name);
        assert(front.push(last) =~= list);
        lemma_found_after_push::<T>(front, last, name);
        lemma_found_after_push::<T>(dropped::<T>(front, dropped_name), last, name);
    } else {
        assert(dropped::<T>(list, dropped_name) =~= list);
    }
}

/// A name that is not found does not come in with a change to an entry of another name.
pub proof fn lemma_still_missing<T: Entry>(
    list: Seq<T::V>,
    name: Seq<char>,
    other: Seq<char>,
    other_change: spec_fn(T::V) -> T::V,
)
    requires
        !holds::<T>(list, name),
        forall|e: T::V| T::goes_by(e, other) ==> !#[trigger] T::goes_by(other_change(e), name),
        forall|e: T::V| T::goes_by(e, other) ==> !#[trigger] T::goes_by(e, name),
    ensures
        !holds::<T>(applied::<T>(list, other, other_change), name),
{
    lemma_applied_other::<T>(list, other, other_change, name);
}

/// Dropping a name that is not found changes nothing.
pub proof fn lemma_drop_missing<T: Entry>(list: Seq<T::V>, name: Seq<char>)
    requires
        !holds::<T>(list, name),
    ensures
        dropped::<T>(list, name) == list,
{
    lemma_position::<T>(list, name);
    lemma_nothing_to_drop::<T>(list, name);
}

/// Finds the first entry of that name, adding a new one at the end if there is none.
pub fn find_or_add<T: Entry>(list: &mut Vec<T>, name: &str) -> (at: usize)
    ensures
        at == position::<T>(old(list).deep_view(), name@),
        at < final(list)@.len(),
        final(list).deep_view() == if at < old(list)@.len() {
            old(list).deep_view()
        } else {
            old(list).deep_view().push(T::blank_entry(name@))
        },
{
    let mut at: usize = 0;
    while at < list.len()
        invariant
            at <= list@.len(),
            *list == *old(list),
            forall|i: int| 0 <= i < at ==> !T::goes_by(#[trigger] list.deep_view()[i], name@),
        decreases list@.len() - at,
    {
        if list[at].is_named(name) {
            proof {
                lemma_position_is::<T>(list.deep_view(), name@, at as int);
            }
            return at;
        }
        at = at + 1;
    }
    proof {
        lemma_position_is::<T>(list.deep_view(), name@, at as int);
    }
    list.push(T::named(name));
    assert(list.deep_view() =~= old(list).deep_view().push(T::blank_entry(name@)));
    at
}

/// Drops the entries of that name.
pub fn drop_named<T: Entry>(list: Vec<T>, name: &str) -> (r: Vec<T>)
    ensures
        r.deep_view() == dropped::<T>(list.deep_view(), name@),
{
    let ghost all = list.deep_view();
    let ghost keep = |e: T::V| !T::goes_by(e, name@);
    let mut rest = list;
    let mut kept: Vec<T> = Vec::new();
    let ghost mut done: int = 0;
    proof {
        reveal(Seq::filter);
        assert(all.take(0).filter(keep) =~= Seq::empty());
        assert(kept.deep_view() =~= Seq::empty());
    }
    while rest.len() > 0
        invariant
            all == list.deep_view(),
            keep == (|e: T::V| !T::goes_by(e, name@)),
            0 <= done <= all.len(),
            rest@.len() == all.len() - done,
            forall|i: int| 0 <= i < rest@.len() ==> (#[trigger] rest@[i]).deep_view() == all[done + i],
            kept.deep_view() == all.take(done).filter(keep),
        decreases rest@.len(),
    {
        let ghost before = rest@;
        let e = rest.remove(0);
        let ghost value = e.deep_view();
        let ghost kept_before = kept.deep_view();
        assert(before[0].deep_view() == all[done]);
        let named = e.is_named(name);
        if !named {
            kept.push(e);
            assert(kept.deep_view() =~= kept_before.push(value));
        }
        proof {
            reveal(Seq::filter);
            assert(all.take(done + 1).drop_last() =~= all.take(done));
            assert(all.take(done + 1).last() == value);
            assert forall|i: int| 0 <= i < rest@.len() implies (#[trigger] rest@[i]).deep_view() == all[done + 1 + i] by {
                assert(rest@[i] == before[i + 1]);
            }
            done = done + 1;
        }
    }
    assert(all.take(done) =~= all);
    kept
}

} // verus!
