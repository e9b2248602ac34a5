//! Lists of entries under keys in ascending order, which stand for ordered
//! maps.
use vstd::prelude::*;

verus! {

/// Whether the keys of the list strictly ascend.
pub open spec fn ascending<T>(list: Seq<(usize, T)>) -> bool {
    forall|i: int, j: int| 0 <= i < j < list.len() ==> list[i].0 < list[j].0
}

/// Whether the list has an entry under the key.
pub open spec fn has_key<T>(list: Seq<(usize, T)>, key: usize) -> bool {
    exists|i: int| 0 <= i < list.len() && list[i].0 == key
}

/// The place of the entry under the key.
pub open spec fn place_of<T>(list: Seq<(usize, T)>, key: usize) -> int {
    choose|i: int| 0 <= i < list.len() && list[i].0 == key
}

/// The key that a new entry of the list gets: one more than the last, or
/// `first` in an empty list.
pub open spec fn next_key<T>(list: Seq<(usize, T)>, first: usize) -> int {
    if list.len() == 0 {
        first as int
    } else {
        list.last().0 + 1
    }
}

/// In an ascending list a key stands at one place only.
pub proof fn lemma_place_of<T>(list: Seq<(usize, T)>, index: int)
    requires
        ascending(list),
        0 <= index < list.len(),
    ensures
        has_key(list, list[index].0),
        place_of(list, list[index].0) == index,
{
    let p = place_of(list, list[index].0);
    if p < index {
        assert(list[p].0 < list[index].0);
    } else if p > index {
        assert(list[index].0 < list[p].0);
    }
}

/// Finds the place of the entry under the key.
pub fn find<T>(list: &Vec<(usize, T)>, key: usize) -> (r: Option<usize>)
    requires
        ascending(list@),
    ensures
        r is Some == has_key(list@, key),
        r matches Some(i) ==> i < list@.len() && list@[i as int].0 == key && i == place_of(
            list@,
            key,
        ),
{
    let mut i: usize = 0;
    while i < list.len()
        invariant
            i <= list@.len(),
            ascending(list@),
            forall|j: int| 0 <= j < i ==> list@[j].0 != key,
        decreases list@.len() - i,
    {
        if list[i].0 == key {
            proof {
                lemma_place_of(list@, i as int);
            }
            return Some(i);
        }
        i += 1;
    }
    None
}

/// Decides whether the keys of the list strictly ascend.
pub fn is_ascending<T>(list: &Vec<(usize, T)>) -> (r: bool)
    ensures
        r == ascending(list@),
{
    let mut i: usize = 1;
    while i < list.len()
        invariant
            1 <= i,
            forall|a: int, b: int| 0 <= a < b < i && b < list@.len() ==> list@[a].0 < list@[b].0,
        decreases list@.len() - i,
    {
        if list[i - 1].0 >= list[i].0 {
            return false;
        }
        proof {
            assert forall|a: int, b: int| 0 <= a < b < i + 1 && b < list@.len() implies list@[a].0
                < list@[b].0 by {
                if b == i && a < i - 1 {
                    assert(list@[a].0 < list@[i - 1].0);
                }
            }
        }
        i += 1;
    }
    true
}

} // verus!
