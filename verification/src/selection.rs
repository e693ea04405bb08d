//! Positions picked out of a sequence by a condition.
use vstd::prelude::*;

verus! {

/// The positions below `count` at which `picked` holds, in ascending order.
pub open spec fn selected(count: nat, picked: spec_fn(int) -> bool) -> Seq<int>
    decreases count,
{
    if count == 0 {
        Seq::empty()
    } else {
        let front = selected((count - 1) as nat, picked);
        if picked(count - 1) {
            front.push(count - 1)
        } else {
            front
        }
    }
}

/// What `selected` gathers: exactly the picked positions, ascending.
pub proof fn selected_ascends(count: nat, picked: spec_fn(int) -> bool)
    ensures
        forall|k: int|
            0 <= k < selected(count, picked).len() ==> 0 <= #[trigger] selected(count, picked)[k]
                < count && picked(selected(count, picked)[k]),
        forall|i: int| 0 <= i < count && picked(i) ==> #[trigger] selected(count, picked).contains(i),
        forall|a: int, b: int|
            0 <= a < b < selected(count, picked).len() ==> selected(count, picked)[a] < selected(
                count,
                picked,
            )[b],
    decreases count,
{
    if count > 0 {
        let front = selected((count - 1) as nat, picked);
        selected_ascends((count - 1) as nat, picked);
        if picked(count - 1) {
            assert(selected(count, picked)[front.len() as int] == count - 1);
            assert forall|i: int| 0 <= i < count && picked(i) implies selected(
                count,
                picked,
            ).contains(i) by {
                if i < count - 1 {
                    assert(front.contains(i));
                    let k = choose|k: int| 0 <= k < front.len() && front[k] == i;
                    assert(selected(count, picked)[k] == i);
                }
            }
        }
    }
}

/// Only the picked positions below `count` matter.
pub proof fn lemma_selected_agree(count: nat, a: spec_fn(int) -> bool, b: spec_fn(int) -> bool)
    requires
        forall|i: int| 0 <= i < count ==> #[trigger] a(i) == b(i),
    ensures
        selected(count, a) == selected(count, b),
    decreases count,
{
    if count > 0 {
        lemma_selected_agree((count - 1) as nat, a, b);
    }
}

/// Executable positions as integers.
pub open spec fn positions(indices: Seq<usize>) -> Seq<int> {
    Seq::new(indices.len(), |k: int| indices[k] as int)
}

/// Appending a position.
pub proof fn lemma_positions_push(indices: Seq<usize>, index: usize)
    ensures
        positions(indices.push(index)) == positions(indices).push(index as int),
{
    assert(positions(indices.push(index)) =~= positions(indices).push(index as int));
}

/// The positions selected below a smaller bound come first.
pub proof fn lemma_selected_prefix(count: nat, total: nat, picked: spec_fn(int) -> bool)
    requires
        count <= total,
    ensures
        selected(count, picked).len() <= selected(total, picked).len(),
        forall|k: int|
            0 <= k < selected(count, picked).len() ==> selected(count, picked)[k] == selected(
                total,
                picked,
            )[k],
    decreases total,
{
    if count < total {
        lemma_selected_prefix(count, (total - 1) as nat, picked);
    }
}

/// The first `count` parts, one behind the other.
pub open spec fn concatenated<A>(count: nat, part: spec_fn(int) -> Seq<A>) -> Seq<A>
    decreases count,
{
    if count == 0 {
        Seq::empty()
    } else {
        concatenated((count - 1) as nat, part) + part(count - 1)
    }
}

/// Only the parts below `count` matter.
pub proof fn lemma_concatenated_agree<A>(
    count: nat,
    a: spec_fn(int) -> Seq<A>,
    b: spec_fn(int) -> Seq<A>,
)
    requires
        forall|i: int| 0 <= i < count ==> #[trigger] a(i) == b(i),
    ensures
        concatenated(count, a) == concatenated(count, b),
    decreases count,
{
    if count > 0 {
        lemma_concatenated_agree((count - 1) as nat, a, b);
    }
}

} // verus!
