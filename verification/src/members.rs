//! Ordered lists of identifiers without repetition.
//!
//! Owner sets and confirmer lists are stored as separator-joined text; here
//! they are ordered collections whose members are compared as bytes.

use crate::keys::{separator, separator_bytes};
use crate::text::{bytes_eq, join, join_bytes, split, split_bytes, views};
use vstd::prelude::*;

verus! {

/// No member occurs twice.
pub open spec fn distinct(list: Seq<Seq<u8>>) -> bool {
    forall|i: int, j: int| 0 <= i < j < list.len() ==> list[i] != list[j]
}

/// Index of the first member equal to `item` at or after `from`, or -1.
pub open spec fn position_from(list: Seq<Seq<u8>>, item: Seq<u8>, from: int) -> int
    decreases list.len() - from,
{
    if from < 0 || from >= list.len() {
        -1
    } else if list[from] == item {
        from
    } else {
        position_from(list, item, from + 1)
    }
}

/// Index of the first member equal to `item`, or -1.
pub open spec fn position(list: Seq<Seq<u8>>, item: Seq<u8>) -> int {
    position_from(list, item, 0)
}

/// `position_from` finds the least index of `item` at or after `from`, and
/// finds one exactly when `item` occurs there.
pub proof fn lemma_position_from(list: Seq<Seq<u8>>, item: Seq<u8>, from: int)
    requires
        0 <= from,
    ensures
        position_from(list, item, from) == -1 <==> forall|j: int|
            from <= j < list.len() ==> list[j] != item,
        position_from(list, item, from) != -1 ==> {
            &&& from <= position_from(list, item, from) < list.len()
            &&& list[position_from(list, item, from)] == item
            &&& forall|j: int| from <= j < position_from(list, item, from) ==> list[j] != item
        },
    decreases list.len() - from,
{
    if from < list.len() && list[from] != item {
        lemma_position_from(list, item, from + 1);
    }
}

/// An item has a position exactly when the list contains it.
pub proof fn lemma_position_contains(list: Seq<Seq<u8>>, item: Seq<u8>)
    ensures
        position(list, item) >= 0 <==> list.contains(item),
        position(list, item) >= 0 ==> position(list, item) < list.len() && list[position(
            list,
            item,
        )] == item,
        position(list, item) >= -1,
{
    lemma_position_from(list, item, 0);
    if list.contains(item) {
        let j = choose|j: int| 0 <= j < list.len() && list[j] == item;
        assert(list[j] == item);
    }
}

/// Index of the first member of `list` equal to `item` at or after `from`.
pub fn find_member(list: &Vec<Vec<u8>>, item: &[u8], from: usize) -> (r: Option<usize>)
    ensures
        match r {
            Some(i) => i as int == position_from(views(list@), item@, from as int),
            None => position_from(views(list@), item@, from as int) == -1,
        },
{
    let mut i: usize = from;
    while i < list.len()
        invariant
            from <= i,
            position_from(views(list@), item@, from as int) == position_from(
                views(list@),
                item@,
                i as int,
            ),
        decreases list.len() - i,
    {
        if bytes_eq(list[i].as_slice(), item) {
            return Some(i);
        }
        i += 1;
    }
    None
}

/// Whether `list` has a member equal to `item`.
pub fn is_member(list: &Vec<Vec<u8>>, item: &[u8]) -> (r: bool)
    ensures
        r == views(list@).contains(item@),
{
    proof {
        lemma_position_contains(views(list@), item@);
    }
    find_member(list, item, 0).is_some()
}

/// Whether no member of `list` occurs twice.
pub fn all_distinct(list: &Vec<Vec<u8>>) -> (r: bool)
    ensures
        r == distinct(views(list@)),
{
    let mut i: usize = 0;
    while i < list.len()
        invariant
            i <= list.len(),
            forall|a: int, b: int| 0 <= a < i && a < b < list.len() ==> views(list@)[a] != views(
                list@,
            )[b],
        decreases list.len() - i,
    {
        proof {
            lemma_position_from(views(list@), list@[i as int]@, i + 1);
        }
        match find_member(list, list[i].as_slice(), i + 1) {
            Some(j) => {
                assert(views(list@)[i as int] == views(list@)[j as int]);
                return false;
            },
            None => {},
        }
        i += 1;
    }
    true
}

/// Removing one member of a list without repetition leaves a list without
/// repetition that no longer contains the member.
pub proof fn lemma_remove_distinct(list: Seq<Seq<u8>>, at: int)
    requires
        distinct(list),
        0 <= at < list.len(),
    ensures
        distinct(list.remove(at)),
        !list.remove(at).contains(list[at]),
        list.remove(at).len() == list.len() - 1,
        forall|x: Seq<u8>| x != list[at] ==> (list.remove(at).contains(x) <==> list.contains(x)),
{
    let out = list.remove(at);
    assert forall|i: int, j: int| 0 <= i < j < out.len() implies out[i] != out[j] by {
        let a = if i < at { i } else { i + 1 };
        let b = if j < at { j } else { j + 1 };
        assert(out[i] == list[a] && out[j] == list[b]);
    }
    if out.contains(list[at]) {
        let k = choose|k: int| 0 <= k < out.len() && out[k] == list[at];
        let a = if k < at { k } else { k + 1 };
        assert(out[k] == list[a]);
    }
    assert forall|x: Seq<u8>| x != list[at] implies (out.contains(x) <==> list.contains(x)) by {
        if out.contains(x) {
            let k = choose|k: int| 0 <= k < out.len() && out[k] == x;
            let a = if k < at { k } else { k + 1 };
            assert(list[a] == x);
        }
        if list.contains(x) {
            let a = choose|a: int| 0 <= a < list.len() && list[a] == x;
            let k = if a < at { a } else { a - 1 };
            assert(out[k] == x);
        }
    }
}

/// Appending a new member to a list without repetition keeps it so.
pub proof fn lemma_push_distinct(list: Seq<Seq<u8>>, item: Seq<u8>)
    requires
        distinct(list),
        !list.contains(item),
    ensures
        distinct(list.push(item)),
{
    let out = list.push(item);
    assert forall|i: int, j: int| 0 <= i < j < out.len() implies out[i] != out[j] by {
        if j == list.len() {
            assert(list[i] == out[i]);
            assert(list.contains(list[i]));
        }
    }
}

/// The members that a stored list text holds: none for the empty text,
/// otherwise the pieces between the separators.
pub open spec fn list_of_text(text: Seq<u8>) -> Seq<Seq<u8>> {
    if text.len() == 0 {
        Seq::<Seq<u8>>::empty()
    } else {
        split(text, separator())
    }
}

/// The text under which a list is stored: its members joined by the
/// separator.
pub open spec fn text_of_list(list: Seq<Seq<u8>>) -> Seq<u8> {
    join(list, separator())
}

/// Reads a stored list text.
pub fn parse_list(text: &[u8]) -> (list: Vec<Vec<u8>>)
    ensures
        views(list@) == list_of_text(text@),
{
    if text.len() == 0 {
        let list: Vec<Vec<u8>> = Vec::new();
        assert(views(list@) =~= Seq::<Seq<u8>>::empty());
        return list;
    }
    let sep = separator_bytes();
    split_bytes(text, sep.as_slice())
}

/// Writes a list as the text under which it is stored.
pub fn format_list(list: &Vec<Vec<u8>>) -> (text: Vec<u8>)
    ensures
        text@ == text_of_list(views(list@)),
{
    let sep = separator_bytes();
    join_bytes(list, sep.as_slice())
}

} // verus!
