use vstd::prelude::*;

verus! {

/// The index after `current` in a list of `count` entries, wrapping to the front; no index
/// in an empty list. A missing selection counts as the first entry.
pub open spec fn spec_next_wrapping(current: Option<usize>, count: nat) -> Option<usize> {
    if count == 0 {
        None
    } else {
        let selected: nat = match current {
            Some(index) => index as nat,
            None => 0,
        };
        Some(((selected + 1) % count) as usize)
    }
}

/// The index before `current` in a list of `count` entries, wrapping to the back; no index
/// in an empty list. A missing selection counts as the first entry.
pub open spec fn spec_previous_wrapping(current: Option<usize>, count: nat) -> Option<usize> {
    if count == 0 {
        None
    } else {
        let selected: nat = match current {
            Some(index) => index as nat,
            None => 0,
        };
        if selected == 0 {
            Some((count - 1) as usize)
        } else {
            Some((selected - 1) as usize)
        }
    }
}

/// Wrapping step to the next entry of a list.
pub fn next_wrapping(current: Option<usize>, count: usize) -> (next: Option<usize>)
    ensures
        next == spec_next_wrapping(current, count as nat),
        next matches Some(index) ==> index < count,
{
    if count == 0 {
        return None;
    }
    let selected = match current {
        Some(index) => index,
        None => 0,
    };
    let reduced = selected % count;
    assert(((selected + 1) % (count as int)) == (if reduced + 1 == count { 0 } else { reduced + 1 }))
        by (nonlinear_arith)
        requires
            reduced == selected % count,
            count > 0,
    ;
    if reduced + 1 == count {
        Some(0)
    } else {
        Some(reduced + 1)
    }
}

/// Wrapping step to the previous entry of a list.
pub fn previous_wrapping(current: Option<usize>, count: usize) -> (previous: Option<usize>)
    ensures
        previous == spec_previous_wrapping(current, count as nat),
{
    if count == 0 {
        return None;
    }
    let selected = match current {
        Some(index) => index,
        None => 0,
    };
    if selected == 0 {
        Some(count - 1)
    } else {
        Some(selected - 1)
    }
}

/// Stepping forward and then back from a selection inside the list returns to it.
pub proof fn lemma_next_then_previous(current: usize, count: nat)
    requires
        current < count,
        count <= usize::MAX,
    ensures
        spec_previous_wrapping(spec_next_wrapping(Some(current), count), count) == Some(current),
        spec_next_wrapping(spec_previous_wrapping(Some(current), count), count) == Some(current),
{
    if current + 1 == count {
        vstd::arithmetic::div_mod::lemma_mod_self_0(count as int);
    } else {
        vstd::arithmetic::div_mod::lemma_small_mod((current + 1) as nat, count);
    }
    if current == 0 {
        vstd::arithmetic::div_mod::lemma_mod_self_0(count as int);
    } else {
        vstd::arithmetic::div_mod::lemma_small_mod(current as nat, count);
    }
}

/// The first index of `items` whose element satisfies `matches`.
pub open spec fn spec_first_index<T>(items: Seq<T>, matches: spec_fn(T) -> bool) -> Option<int>
    decreases items.len(),
{
    if items.len() == 0 {
        None
    } else {
        let earlier = spec_first_index(items.drop_last(), matches);
        if earlier is Some {
            earlier
        } else if matches(items.last()) {
            Some(items.len() - 1)
        } else {
            None
        }
    }
}

/// The first matching index is a match with no match before it; no index means no match.
pub proof fn lemma_first_index<T>(items: Seq<T>, matches: spec_fn(T) -> bool)
    ensures
        spec_first_index(items, matches) matches Some(index) ==> 0 <= index < items.len()
            && matches(items[index]) && forall|j: int| 0 <= j < index ==> !matches(#[trigger] items[j]),
        spec_first_index(items, matches) is None ==> forall|j: int|
            0 <= j < items.len() ==> !matches(#[trigger] items[j]),
    decreases items.len(),
{
    if items.len() > 0 {
        let earlier = items.drop_last();
        lemma_first_index(earlier, matches);
        assert forall|j: int| 0 <= j < earlier.len() implies earlier[j] == items[j] by {}
    }
}

/// Extending a prefix by one element extends the search by that element.
pub proof fn lemma_first_index_step<T>(items: Seq<T>, matches: spec_fn(T) -> bool, count: int)
    requires
        0 <= count < items.len(),
    ensures
        spec_first_index(items.subrange(0, count + 1), matches) == if spec_first_index(
            items.subrange(0, count),
            matches,
        ) is Some {
            spec_first_index(items.subrange(0, count), matches)
        } else if matches(items[count]) {
            Some(count)
        } else {
            None
        },
{
    assert(items.subrange(0, count + 1).drop_last() =~= items.subrange(0, count));
}

} // verus!

verus! {

/// Once a prefix has a first match, every longer prefix, and the whole list, has the same
/// first match.
pub proof fn lemma_first_index_extends<T>(items: Seq<T>, matches: spec_fn(T) -> bool, count: int)
    requires
        0 <= count <= items.len(),
        spec_first_index(items.subrange(0, count), matches) is Some,
    ensures
        spec_first_index(items, matches) == spec_first_index(items.subrange(0, count), matches),
    decreases items.len() - count,
{
    if count == items.len() {
        assert(items.subrange(0, count) =~= items);
    } else {
        lemma_first_index_step(items, matches, count);
        lemma_first_index_extends(items, matches, count + 1);
    }
}

} // verus!
