//! Joining sequences with a separator.
use vstd::prelude::*;

verus! {

/// The parts one after another, with `sep` between neighbours.
pub open spec fn join_seqs<T>(parts: Seq<Seq<T>>, sep: Seq<T>) -> Seq<T>
    decreases parts.len(),
{
    if parts.len() == 0 {
        Seq::empty()
    } else if parts.len() == 1 {
        parts[0]
    } else {
        join_seqs(parts.drop_last(), sep) + sep + parts.last()
    }
}

/// Joining one more part extends the join of the parts before it.
pub proof fn lemma_join_push<T>(parts: Seq<Seq<T>>, sep: Seq<T>, p: Seq<T>)
    ensures
        join_seqs(parts.push(p), sep) == if parts.len() == 0 {
            p
        } else {
            join_seqs(parts, sep) + sep + p
        },
{
    assert(parts.push(p).drop_last() =~= parts);
    if parts.len() == 0 {
        assert(parts.push(p)[0] == p);
    }
}

} // verus!
