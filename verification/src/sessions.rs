//! The session directory: which names a listing of sessions yields.

use vstd::prelude::*;

verus! {

/// The names that a listing carries, in listing order. An entry without a
/// name contributes nothing.
pub open spec fn named(entries: Seq<Option<Seq<char>>>) -> Seq<Seq<char>> {
    entries.filter_map(|entry: Option<Seq<char>>| entry)
}

/// Collects the names of the listed sessions, skipping entries that have none.
pub fn session_names(entries: &Vec<Option<String>>) -> (names: Vec<String>)
    ensures
        names.deep_view() == named(entries.deep_view()),
{
    let mut names: Vec<String> = Vec::new();
    let mut i: usize = 0;
    assert(entries.deep_view().take(0) =~= Seq::empty());
    assert(names.deep_view() =~= Seq::empty());
    while i < entries.len()
        invariant
            i <= entries.len(),
            names.deep_view() == named(entries.deep_view().take(i as int)),
        decreases entries.len() - i,
    {
        let ghost before = names.deep_view();
        proof {
            entries.deep_view().lemma_filter_map_take_succ(
                |entry: Option<Seq<char>>| entry,
                i as int,
            );
        }
        match &entries[i] {
            Some(name) => {
                names.push(name.clone());
                assert(names.deep_view() =~= before.push(name@));
            },
            None => {},
        }
        i += 1;
    }
    assert(entries.deep_view().take(entries.len() as int) =~= entries.deep_view());
    names
}

/// The places in a listing of the entries that carry a name, in increasing
/// order.
pub open spec fn named_positions(entries: Seq<Option<Seq<char>>>) -> Seq<int>
    decreases entries.len(),
{
    if entries.len() == 0 {
        Seq::empty()
    } else if entries.last() is Some {
        named_positions(entries.drop_last()).push(entries.len() - 1)
    } else {
        named_positions(entries.drop_last())
    }
}

/// The places in a listing of the entries that carry a name, as a set.
pub open spec fn named_places(entries: Seq<Option<Seq<char>>>) -> Set<int> {
    Set::new(|i: int| 0 <= i < entries.len() && entries[i] is Some)
}

/// The names of a listing are the names of its named entries, each once and
/// in the order of the listing: there are as many names as entries with a
/// name, the name at each position is that of the named entry at the same
/// rank, and ranks and places rise together.
pub proof fn names_follow_the_listing(entries: Seq<Option<Seq<char>>>)
    ensures
        named_places(entries).finite(),
        named(entries).len() == named_places(entries).len(),
        named(entries).len() == named_positions(entries).len(),
        forall|k: int|
            0 <= k < named(entries).len() ==> {
                let at = #[trigger] named_positions(entries)[k];
                0 <= at < entries.len() && entries[at] == Some(named(entries)[k])
            },
        forall|j: int, k: int|
            0 <= j < k < named(entries).len() ==> named_positions(entries)[j] < named_positions(
                entries,
            )[k],
        forall|i: int|
            named_places(entries).contains(i) <==> named_positions(entries).contains(i),
    decreases entries.len(),
{
    if entries.len() == 0 {
        assert(named_places(entries) =~= Set::empty());
    } else {
        let front = entries.drop_last();
        let last = entries.len() - 1;
        names_follow_the_listing(front);
        assert(named(entries) == match entries.last() {
            Some(name) => named(front) + seq![name],
            None => named(front),
        });
        if entries.last() is Some {
            assert(named_places(entries) =~= named_places(front).insert(last));
            assert(!named_places(front).contains(last));
            assert forall|i: int| named_positions(entries).contains(i) implies named_places(
                entries,
            ).contains(i) by {
                let k = choose|k: int|
                    0 <= k < named_positions(entries).len() && named_positions(entries)[k] == i;
                if k < named_positions(front).len() {
                    assert(named_positions(front)[k] == i);
                    assert(named_positions(front).contains(i));
                }
            }
            assert forall|i: int| named_places(entries).contains(i) implies named_positions(
                entries,
            ).contains(i) by {
                if i == last {
                    assert(named_positions(entries)[named_positions(front).len() as int] == i);
                } else {
                    assert(named_places(front).contains(i));
                    let k = choose|k: int|
                        0 <= k < named_positions(front).len() && named_positions(front)[k] == i;
                    assert(named_positions(entries)[k] == i);
                }
            }
        } else {
            assert(named_places(entries) =~= named_places(front));
        }
    }
}

} // verus!
