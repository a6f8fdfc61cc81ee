//! Finding the first occurrence of a value in a sequence, and sequences
//! that hold no value twice.

use vstd::prelude::*;

verus! {

/// Where `value` first occurs in `items`.
pub open spec fn first_position<T>(items: Seq<T>, value: T) -> int {
    choose|i: int|
        0 <= i < items.len() && items[i] == value && forall|j: int| 0 <= j < i ==> items[j] != value
}

/// No value occurs twice.
pub open spec fn all_distinct<T>(items: Seq<T>) -> bool {
    forall|i: int, j: int| 0 <= i < j < items.len() ==> items[i] != items[j]
}

/// A value that occurs at `at` has a first position, at or before `at`.
pub proof fn lemma_first_position_exists<T>(items: Seq<T>, value: T, at: int)
    requires
        0 <= at < items.len(),
        items[at] == value,
    ensures
        0 <= first_position(items, value) <= at,
        items[first_position(items, value)] == value,
        forall|j: int| 0 <= j < first_position(items, value) ==> items[j] != value,
    decreases at,
{
    if exists|j: int| 0 <= j < at && items[j] == value {
        let j = choose|j: int| 0 <= j < at && items[j] == value;
        lemma_first_position_exists(items, value, j);
    } else {
        assert(0 <= at < items.len() && items[at] == value && forall|j: int|
            0 <= j < at ==> items[j] != value);
    }
}

/// A position that holds the value, with no earlier position holding it, is
/// the first position.
pub proof fn lemma_first_position_is<T>(items: Seq<T>, value: T, at: int)
    requires
        0 <= at < items.len(),
        items[at] == value,
        forall|j: int| 0 <= j < at ==> items[j] != value,
    ensures
        first_position(items, value) == at,
{
    lemma_first_position_exists(items, value, at);
}

/// Taking the first occurrence of a value out of a sequence without repeats
/// leaves a sequence without repeats that no longer holds the value.
pub proof fn lemma_removed_is_gone<T>(items: Seq<T>, value: T)
    requires
        all_distinct(items),
        items.contains(value),
    ensures
        0 <= first_position(items, value) < items.len(),
        items[first_position(items, value)] == value,
        all_distinct(items.remove(first_position(items, value))),
        !items.remove(first_position(items, value)).contains(value),
{
    let w = choose|i: int| 0 <= i < items.len() && items[i] == value;
    lemma_first_position_exists(items, value, w);
    let p = first_position(items, value);
    let rest = items.remove(p);
    assert forall|i: int, j: int| 0 <= i < j < rest.len() implies rest[i] != rest[j] by {
        let si = if i < p { i } else { i + 1 };
        let sj = if j < p { j } else { j + 1 };
        assert(rest[i] == items[si]);
        assert(rest[j] == items[sj]);
    }
    assert forall|i: int| 0 <= i < rest.len() implies rest[i] != value by {
        let si = if i < p { i } else { i + 1 };
        assert(rest[i] == items[si]);
    }
}

/// Adding a value that a sequence without repeats does not hold leaves it
/// without repeats.
pub proof fn lemma_push_new_is_distinct<T>(items: Seq<T>, value: T)
    requires
        all_distinct(items),
        !items.contains(value),
    ensures
        all_distinct(items.push(value)),
{
    let more = items.push(value);
    assert forall|i: int, j: int| 0 <= i < j < more.len() implies more[i] != more[j] by {
        if j == items.len() {
            assert(items.contains(items[i]));
        }
    }
}

/// Taking any one item out of a sequence without repeats leaves it without
/// repeats.
pub proof fn lemma_remove_keeps_distinct<T>(items: Seq<T>, at: int)
    requires
        all_distinct(items),
        0 <= at < items.len(),
    ensures
        all_distinct(items.remove(at)),
{
    let rest = items.remove(at);
    assert forall|i: int, j: int| 0 <= i < j < rest.len() implies rest[i] != rest[j] by {
        let si = if i < at { i } else { i + 1 };
        let sj = if j < at { j } else { j + 1 };
        assert(rest[i] == items[si]);
        assert(rest[j] == items[sj]);
    }
}

} // verus!
