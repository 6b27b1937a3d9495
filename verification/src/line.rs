//! Lines of operations that wait for their turn, each known by its number. The
//! first in line has the turn.
use vstd::prelude::*;

verus! {

/// The operations but one.
pub open spec fn without(operations: Seq<u64>, operation: u64) -> Seq<u64>
    decreases operations.len(),
{
    if operations.len() == 0 {
        operations
    } else if operations.last() == operation {
        without(operations.drop_last(), operation)
    } else {
        without(operations.drop_last(), operation).push(operations.last())
    }
}

/// The operations but one.
pub(crate) fn remaining(operations: &Vec<u64>, operation: u64) -> (rest: Vec<u64>)
    ensures
        rest@ == without(operations@, operation),
{
    let mut rest: Vec<u64> = Vec::new();
    let mut i: usize = 0;
    assert(operations@.take(0) =~= Seq::<u64>::empty());
    while i < operations.len()
        invariant
            i <= operations@.len(),
            rest@ == without(operations@.take(i as int), operation),
        decreases operations@.len() - i,
    {
        proof {
            assert(operations@.take(i + 1).drop_last() =~= operations@.take(i as int));
            assert(operations@.take(i + 1).last() == operations@[i as int]);
        }
        if operations[i] != operation {
            rest.push(operations[i]);
        }
        i = i + 1;
    }
    assert(operations@.take(i as int) =~= operations@);
    rest
}

/// Says whether an operation is among some.
pub(crate) fn is_among(operations: &Vec<u64>, operation: u64) -> (among: bool)
    ensures
        among == operations@.contains(operation),
{
    let mut i: usize = 0;
    while i < operations.len()
        invariant
            i <= operations@.len(),
            forall|j: int| 0 <= j < i ==> operations@[j] != operation,
        decreases operations@.len() - i,
    {
        if operations[i] == operation {
            assert(operations@[i as int] == operation);
            return true;
        }
        i = i + 1;
    }
    false
}

/// Another operation that was first in line is first behind the leaving of one.
pub(crate) proof fn lemma_first_stays(operations: Seq<u64>, operation: u64)
    requires
        operations.len() > 0,
        operations[0] != operation,
    ensures
        without(operations, operation).len() > 0,
        without(operations, operation)[0] == operations[0],
    decreases operations.len(),
{
    if operations.len() == 1 {
        assert(without(operations.drop_last(), operation).len() == 0);
        assert(operations.last() == operations[0]);
    } else {
        lemma_first_stays(operations.drop_last(), operation);
        assert(operations.drop_last()[0] == operations[0]);
    }
}

/// An operation that is among others is among them behind the leaving of one.
pub(crate) proof fn lemma_others_stay(operations: Seq<u64>, operation: u64, other: u64)
    requires
        operations.contains(other),
        other != operation,
    ensures
        without(operations, operation).contains(other),
    decreases operations.len(),
{
    let at = choose|at: int| 0 <= at < operations.len() && operations[at] == other;
    let front = operations.drop_last();
    if at < front.len() {
        assert(front[at] == other);
        lemma_others_stay(front, operation, other);
        let place = choose|place: int| 0 <= place < without(front, operation).len() && without(front, operation)[place]
            == other;
        assert(without(operations, operation)[place] == other);
    } else {
        assert(without(operations, operation).last() == other);
        assert(without(operations, operation)[without(operations, operation).len() - 1] == other);
    }
}

/// Who is left behind the leaving of one was there before, and is another.
pub(crate) proof fn lemma_come_from(operations: Seq<u64>, operation: u64, other: u64)
    requires
        without(operations, operation).contains(other),
    ensures
        operations.contains(other),
        other != operation,
    decreases operations.len(),
{
    if operations.len() > 0 {
        let front = operations.drop_last();
        let left = without(operations, operation);
        let place = choose|place: int| 0 <= place < left.len() && left[place] == other;
        if operations.last() != operation && place == left.len() - 1 {
            assert(operations[operations.len() - 1] == other);
        } else {
            assert(without(front, operation)[place] == other);
            lemma_come_from(front, operation, other);
            let at = choose|at: int| 0 <= at < front.len() && front[at] == other;
            assert(operations[at] == other);
        }
    }
}

/// An operation that comes to a line and goes again leaves the line as it was for
/// the others.
pub proof fn leaving_undoes_entering(operations: Seq<u64>, operation: u64)
    requires
        !operations.contains(operation),
    ensures
        without(operations.push(operation), operation) == operations,
{
    assert(operations.push(operation).drop_last() =~= operations);
    without_absent(operations, operation);
}

proof fn without_absent(operations: Seq<u64>, operation: u64)
    requires
        !operations.contains(operation),
    ensures
        without(operations, operation) == operations,
    decreases operations.len(),
{
    if operations.len() > 0 {
        let front = operations.drop_last();
        assert(operations[operations.len() - 1] == operations.last());
        assert forall|i: int| 0 <= i < front.len() implies front[i] != operation by {
            assert(front[i] == operations[i]);
        }
        without_absent(front, operation);
        assert(front.push(operations.last()) =~= operations);
    }
}

/// Only the one who leaves is taken out of a line: the others stay, in their order.
pub proof fn the_others_stay_in_line(first: Seq<u64>, second: Seq<u64>, operation: u64)
    ensures
        without(first + second, operation) == without(first, operation) + without(second, operation),
        !without(first, operation).contains(operation),
        !first.contains(operation) ==> without(first, operation) == first,
    decreases first.len() + second.len(),
{
    if second.len() > 0 {
        the_others_stay_in_line(first, second.drop_last(), operation);
        assert((first + second).drop_last() =~= first + second.drop_last());
        assert(without(first + second, operation) =~= without(first, operation) + without(second, operation));
    } else {
        assert(first + second =~= first);
        assert(without(first, operation) + without(second, operation) =~= without(first, operation));
        if first.len() > 0 {
            the_others_stay_in_line(first.drop_last(), second, operation);
            assert(first.last() == first[first.len() - 1]);
            if !first.contains(operation) {
                assert(!first.drop_last().contains(operation)) by {
                    if first.drop_last().contains(operation) {
                        let at = choose|at: int| 0 <= at < first.len() - 1 && first.drop_last()[at] == operation;
                        assert(first[at] == operation);
                    }
                }
                assert(first.drop_last().push(first.last()) =~= first);
            }
        }
    }
}

} // verus!
