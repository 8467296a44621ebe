//! Lists of entries that are found by a number: the open connections of the
//! worker by their identifier, the replies that wait on the host by the
//! identifier of their request.

use vstd::prelude::*;

verus! {

/// The position of the first entry of `entries` under `id`, or the length
/// of `entries` where there is none.
pub open spec fn position_of<T>(entries: Seq<(u64, T)>, id: u64) -> int
    decreases entries.len(),
{
    if entries.len() == 0 {
        0
    } else if entries[0].0 == id {
        0
    } else {
        1 + position_of(entries.drop_first(), id)
    }
}

/// Whether `entries` has an entry under `id`.
pub open spec fn is_open<T>(entries: Seq<(u64, T)>, id: u64) -> bool {
    position_of(entries, id) < entries.len()
}

/// The position of an entry lies within the list or at its end; the entry
/// there is under `id`, and no entry before it is.
pub proof fn lemma_position_of<T>(entries: Seq<(u64, T)>, id: u64)
    ensures
        0 <= position_of(entries, id) <= entries.len(),
        is_open(entries, id) ==> entries[position_of(entries, id)].0 == id,
        forall|i: int| 0 <= i < position_of(entries, id) ==> (#[trigger] entries[i]).0 != id,
    decreases entries.len(),
{
    if entries.len() > 0 && entries[0].0 != id {
        let rest = entries.drop_first();
        lemma_position_of(rest, id);
        assert forall|i: int| 0 <= i < position_of(entries, id) implies (#[trigger] entries[i]).0
            != id by {
            if i > 0 {
                assert(entries[i] == rest[i - 1]);
            }
        }
    }
}

/// An entry under `id` that has no entry under `id` before it stands at
/// the position of `id`.
pub proof fn lemma_position_found<T>(entries: Seq<(u64, T)>, id: u64, at: int)
    requires
        0 <= at <= entries.len(),
        at < entries.len() ==> entries[at].0 == id,
        forall|i: int| 0 <= i < at ==> (#[trigger] entries[i]).0 != id,
    ensures
        position_of(entries, id) == at,
{
    lemma_position_of(entries, id);
}

} // verus!
