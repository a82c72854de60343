//! Sequences of builder calls: the value a field ends up with.
use vstd::prelude::*;

verus! {

/// The last value given among `values`, where `None` stands for a call that
/// gives the field no value; `None` when no call gives one.
pub open spec fn last_set<T>(values: Seq<Option<T>>) -> Option<T>
    decreases values.len(),
{
    if values.len() == 0 {
        None
    } else {
        match values.last() {
            Some(v) => Some(v),
            None => last_set(values.drop_last()),
        }
    }
}

/// Mapping a sequence and dropping its last element commute.
pub proof fn lemma_map_drop_last<A, B>(s: Seq<A>, f: spec_fn(A) -> B)
    requires
        s.len() > 0,
    ensures
        s.map_values(f).drop_last() == s.drop_last().map_values(f),
        s.map_values(f).last() == f(s.last()),
{
    assert(s.map_values(f).drop_last() =~= s.drop_last().map_values(f));
}

} // verus!
