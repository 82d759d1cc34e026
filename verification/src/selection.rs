//! A list of items with ids, one of which is selected: what finding, saving,
//! deleting and selecting do, and what they keep true.
use crate::text::{lemma_position, lemma_position_is, position, same_text};
use vstd::prelude::*;

verus! {

/// Something that is found by its id.
pub trait Identified: Sized {
    /// The id as text.
    spec fn key(self) -> Seq<char>;

    /// The id.
    fn id_text(&self) -> (r: &str)
        ensures
            r@ == self.key(),
    ;

    /// Another of the same.
    fn copied(&self) -> (r: Self)
        ensures
            r == *self,
    ;
}

/// A list, and the id of the item that is selected.
#[verifier::ext_equal]
pub struct Choice<T> {
    pub items: Seq<T>,
    pub selected: Seq<char>,
}

/// The ids of a list.
pub open spec fn keys<T: Identified>(items: Seq<T>) -> Seq<Seq<char>> {
    items.map_values(|item: T| item.key())
}

/// The item that an id stands for.
pub open spec fn lookup<T: Identified>(items: Seq<T>, key: Seq<char>) -> Option<T> {
    match position(keys(items), key) {
        Some(k) => Some(items[k]),
        None => None,
    }
}

/// A list after `item` was saved: it takes the place of the one with its id, or
/// comes last.
pub open spec fn with_item<T: Identified>(items: Seq<T>, item: T) -> Seq<T> {
    match position(keys(items), item.key()) {
        Some(k) => items.update(k, item),
        None => items.push(item),
    }
}

/// The items whose id is not `key`, in their order.
pub open spec fn without_key<T: Identified>(items: Seq<T>, key: Seq<char>) -> Seq<T> {
    items.filter(|item: T| item.key() != key)
}

/// The item that is used: the selected one, else the first.
pub open spec fn used<T: Identified>(choice: Choice<T>) -> Option<T> {
    match lookup(choice.items, choice.selected) {
        Some(found) => Some(found),
        None => if choice.items.len() > 0 {
            Some(choice.items[0])
        } else {
            None
        },
    }
}

/// What saving an item does: it is selected if nothing was.
pub open spec fn saved<T: Identified>(choice: Choice<T>, item: T) -> Choice<T> {
    Choice {
        items: with_item(choice.items, item),
        selected: if choice.selected.len() == 0 {
            item.key()
        } else {
            choice.selected
        },
    }
}

/// What deleting by id does: where the selected item goes, the first of the
/// others is selected, or none.
pub open spec fn deleted<T: Identified>(choice: Choice<T>, key: Seq<char>) -> Choice<T> {
    let items = without_key(choice.items, key);
    Choice {
        items,
        selected: if choice.selected != key {
            choice.selected
        } else if items.len() > 0 {
            items[0].key()
        } else {
            Seq::empty()
        },
    }
}

/// What selecting an item does.
pub open spec fn selecting<T: Identified>(choice: Choice<T>, key: Seq<char>) -> Choice<T> {
    Choice { selected: key, ..choice }
}

/// Where the item with this id stands.
pub fn find<T: Identified>(items: &Vec<T>, key: &str) -> (r: Option<usize>)
    ensures
        r matches Some(k) ==> position(keys(items@), key@) == Some(k as int) && k < items@.len(),
        r is None ==> position(keys(items@), key@) is None,
{
    let mut i: usize = 0;
    while i < items.len()
        invariant
            i <= items@.len(),
            forall|j: int| 0 <= j < i ==> #[trigger] keys(items@)[j] != key@,
        decreases items@.len() - i,
    {
        if same_text(items[i].id_text(), key) {
            proof {
                lemma_position_is(keys(items@), key@, i as int);
            }
            return Some(i);
        }
        i += 1;
    }
    proof {
        lemma_position(keys(items@), key@);
    }
    None
}

/// Picks the item that is used.
pub fn pick<T: Identified>(items: &Vec<T>, selected: &str) -> (r: Option<T>)
    ensures
        r == used(Choice { items: items@, selected: selected@ }),
{
    match find(items, selected) {
        Some(k) => Some(items[k].copied()),
        None => if items.len() > 0 {
            Some(items[0].copied())
        } else {
            None
        },
    }
}

/// Adds an item, or replaces the one with its id.
pub fn put<T: Identified>(items: &mut Vec<T>, item: T)
    ensures
        final(items)@ == with_item(old(items)@, item),
{
    match find(items, item.id_text()) {
        Some(k) => {
            items.set(k, item);
        },
        None => {
            items.push(item);
        },
    }
}

/// The items whose id is not `key`.
pub fn remove<T: Identified>(items: &Vec<T>, key: &str) -> (r: Vec<T>)
    ensures
        r@ == without_key(items@, key@),
{
    let mut kept: Vec<T> = Vec::new();
    let mut i: usize = 0;
    let ghost other = |item: T| item.key() != key@;
    proof {
        reveal(Seq::filter);
        assert(items@.take(0).filter(other) == Seq::<T>::empty());
    }
    while i < items.len()
        invariant
            i <= items@.len(),
            other == (|item: T| item.key() != key@),
            kept@ == items@.take(i as int).filter(other),
        decreases items@.len() - i,
    {
        proof {
            let now = items@.take(i + 1);
            assert(now.drop_last() == items@.take(i as int));
            assert(now.last() == items@[i as int]);
            reveal(Seq::filter);
        }
        if !same_text(items[i].id_text(), key) {
            kept.push(items[i].copied());
        }
        i += 1;
    }
    assert(items@.take(i as int) == items@);
    kept
}

/// A lookup, step by step from the end of the list.
proof fn lemma_lookup_unfolds<T: Identified>(items: Seq<T>, key: Seq<char>)
    requires
        items.len() > 0,
    ensures
        lookup(items, key) == match lookup(items.drop_last(), key) {
            Some(found) => Some(found),
            None => if items.last().key() == key {
                Some(items.last())
            } else {
                None
            },
        },
{
    let front = keys(items.drop_last());
    assert(keys(items).drop_last() == front);
    assert(keys(items).last() == items.last().key());
    lemma_position(front, key);
}

/// A saved item is found under its id, and every other id still stands for what
/// it stood for.
pub proof fn law_saved_is_found<T: Identified>(items: Seq<T>, item: T)
    ensures
        lookup(with_item(items, item), item.key()) == Some(item),
        forall|key: Seq<char>|
            key != item.key() ==> #[trigger] lookup(with_item(items, item), key) == lookup(
                items,
                key,
            ),
{
    let after = with_item(items, item);
    lemma_position(keys(items), item.key());
    match position(keys(items), item.key()) {
        Some(k) => {
            assert(keys(items)[k] == item.key());
            assert(keys(after) =~= keys(items));
            assert forall|key: Seq<char>| key != item.key() implies #[trigger] lookup(after, key)
                == lookup(items, key) by {
                lemma_position(keys(items), key);
            }
        },
        None => {
            assert(after.drop_last() == items);
            lemma_lookup_unfolds(after, item.key());
            assert forall|key: Seq<char>| key != item.key() implies #[trigger] lookup(after, key)
                == lookup(items, key) by {
                lemma_lookup_unfolds(after, key);
            }
        },
    }
}

/// Saving the same item twice is saving it once.
pub proof fn law_saved_again<T: Identified>(choice: Choice<T>, item: T)
    ensures
        saved(saved(choice, item), item) == saved(choice, item),
{
    let items = choice.items;
    let once = with_item(items, item);
    lemma_position(keys(items), item.key());
    let k = match position(keys(items), item.key()) {
        Some(k) => k,
        None => items.len() as int,
    };
    assert forall|j: int| 0 <= j < k implies #[trigger] keys(once)[j] != item.key() by {
        assert(keys(items)[j] == keys(once)[j]);
    }
    lemma_position_is(keys(once), item.key(), k);
    assert(once.update(k, item) =~= once);
}

proof fn lemma_lookup_without<T: Identified>(items: Seq<T>, key: Seq<char>, other: Seq<char>)
    ensures
        lookup(without_key(items, key), other) == if other == key {
            None
        } else {
            lookup(items, other)
        },
    decreases items.len(),
{
    reveal(Seq::filter);
    let kept = without_key(items, key);
    if items.len() == 0 {
        assert(keys(kept).len() == 0);
    } else {
        let front = items.drop_last();
        lemma_lookup_without(front, key, other);
        lemma_lookup_unfolds(items, other);
        if items.last().key() != key {
            assert(kept.drop_last() == without_key(front, key));
            lemma_lookup_unfolds(kept, other);
        }
    }
}

/// After a deletion the id stands for nothing, and every other id still stands
/// for what it stood for.
pub proof fn law_deleted_is_gone<T: Identified>(items: Seq<T>, key: Seq<char>)
    ensures
        lookup(without_key(items, key), key) is None,
        forall|other: Seq<char>|
            other != key ==> #[trigger] lookup(without_key(items, key), other) == lookup(
                items,
                other,
            ),
{
    lemma_lookup_without(items, key, key);
    assert forall|other: Seq<char>| other != key implies #[trigger] lookup(
        without_key(items, key),
        other,
    ) == lookup(items, other) by {
        lemma_lookup_without(items, key, other);
    }
}

proof fn lemma_nothing_to_delete<T: Identified>(items: Seq<T>, key: Seq<char>)
    requires
        lookup(items, key) is None,
    ensures
        without_key(items, key) == items,
    decreases items.len(),
{
    reveal(Seq::filter);
    if items.len() > 0 {
        lemma_lookup_unfolds(items, key);
        lemma_nothing_to_delete(items.drop_last(), key);
        assert(items.drop_last().push(items.last()) == items);
    }
}

/// Deleting an item that was just added gives the list back.
pub proof fn law_delete_undoes_added<T: Identified>(items: Seq<T>, item: T)
    requires
        lookup(items, item.key()) is None,
    ensures
        without_key(with_item(items, item), item.key()) == items,
{
    reveal(Seq::filter);
    let added = items.push(item);
    assert(with_item(items, item) == added);
    assert(added.drop_last() == items);
    lemma_nothing_to_delete(items, item.key());
}

/// Deleting twice is deleting once.
pub proof fn law_deleted_again<T: Identified>(choice: Choice<T>, key: Seq<char>)
    ensures
        deleted(deleted(choice, key), key) == deleted(choice, key),
{
    let kept = without_key(choice.items, key);
    lemma_lookup_without(choice.items, key, key);
    lemma_nothing_to_delete(kept, key);
    lemma_position(keys(kept), key);
    if kept.len() > 0 {
        assert(keys(kept)[0] == kept[0].key());
    }
}

/// No two items of a list share an id.
pub open spec fn keys_distinct<T: Identified>(items: Seq<T>) -> bool {
    forall|i: int, j: int|
        0 <= i < j < items.len() ==> (#[trigger] items[i]).key() != (#[trigger] items[j]).key()
}

proof fn lemma_without_is_part<T: Identified>(items: Seq<T>, key: Seq<char>)
    ensures
        forall|i: int|
            0 <= i < without_key(items, key).len() ==> items.contains(
                #[trigger] without_key(items, key)[i],
            ),
        keys_distinct(items) ==> keys_distinct(without_key(items, key)),
    decreases items.len(),
{
    reveal(Seq::filter);
    let kept = without_key(items, key);
    if items.len() > 0 {
        let front = items.drop_last();
        lemma_without_is_part(front, key);
        let kept_front = without_key(front, key);
        assert forall|i: int| 0 <= i < kept.len() implies items.contains(#[trigger] kept[i]) by {
            if i < kept_front.len() {
                assert(front.contains(kept_front[i]));
                let m = choose|m: int| 0 <= m < front.len() && front[m] == kept_front[i];
                assert(items[m] == kept[i]);
            } else {
                assert(items[items.len() - 1] == kept[i]);
            }
        }
        if keys_distinct(items) {
            assert(keys_distinct(front)) by {
                assert forall|i: int, j: int| 0 <= i < j < front.len() implies (
                #[trigger] front[i]).key() != (#[trigger] front[j]).key() by {
                    assert(front[i] == items[i] && front[j] == items[j]);
                }
            }
            assert forall|i: int, j: int| 0 <= i < j < kept.len() implies (
            #[trigger] kept[i]).key() != (#[trigger] kept[j]).key() by {
                if j < kept_front.len() {
                    assert(kept[i] == kept_front[i] && kept[j] == kept_front[j]);
                } else {
                    assert(kept[i] == kept_front[i]);
                    assert(front.contains(kept_front[i]));
                    let m = choose|m: int| 0 <= m < front.len() && front[m] == kept_front[i];
                    assert(items[m].key() != items[items.len() - 1].key());
                }
            }
        }
    }
}

/// Saving and deleting keep the ids of a list distinct.
pub proof fn law_keys_stay_distinct<T: Identified>(items: Seq<T>, item: T, key: Seq<char>)
    requires
        keys_distinct(items),
    ensures
        keys_distinct(with_item(items, item)),
        keys_distinct(without_key(items, key)),
{
    let after = with_item(items, item);
    lemma_position(keys(items), item.key());
    lemma_without_is_part(items, key);
    assert forall|i: int, j: int| 0 <= i < j < after.len() implies (#[trigger] after[i]).key() != (
    #[trigger] after[j]).key() by {
        match position(keys(items), item.key()) {
            Some(k) => {
                assert(items[k].key() == keys(items)[k]);
                assert(items[i].key() != items[j].key());
            },
            None => {
                assert(keys(items)[i] == items[i].key());
                if j < items.len() {
                    assert(items[i].key() != items[j].key());
                }
            },
        }
    }
}

/// A list in which every item has an id, and one that is selected unless the
/// list is empty.
pub open spec fn consistent<T: Identified>(choice: Choice<T>) -> bool {
    &&& forall|i: int| 0 <= i < choice.items.len() ==> (#[trigger] choice.items[i]).key().len() > 0
    &&& if choice.items.len() == 0 {
        choice.selected.len() == 0
    } else {
        choice.selected.len() > 0 && lookup(choice.items, choice.selected) is Some
    }
}

/// Saving an item that has an id leaves no selection that stands for nothing.
pub proof fn law_saving_stays_consistent<T: Identified>(choice: Choice<T>, item: T)
    requires
        consistent(choice),
        item.key().len() > 0,
    ensures
        consistent(saved(choice, item)),
{
    law_saved_is_found(choice.items, item);
    lemma_position(keys(choice.items), item.key());
}

/// Deleting leaves no selection that stands for nothing.
pub proof fn law_deleting_stays_consistent<T: Identified>(choice: Choice<T>, key: Seq<char>)
    requires
        consistent(choice),
    ensures
        consistent(deleted(choice, key)),
{
    let items = choice.items;
    let kept = without_key(items, key);
    law_deleted_is_gone(items, key);
    lemma_without_is_part(items, key);
    assert forall|i: int| 0 <= i < kept.len() implies (#[trigger] kept[i]).key().len() > 0 by {
        assert(items.contains(kept[i]));
        let m = choose|m: int| 0 <= m < items.len() && items[m] == kept[i];
        assert(items[m].key().len() > 0);
    }
    if kept.len() > 0 {
        if choice.selected == key {
            lemma_position_is(keys(kept), kept[0].key(), 0);
        } else if items.len() == 0 {
            reveal(Seq::filter);
        }
    } else if choice.selected != key && items.len() > 0 {
        assert(lookup(kept, choice.selected) is Some);
        lemma_position(keys(kept), choice.selected);
    }
}

/// Selecting an item of the list leaves no selection that stands for nothing.
pub proof fn law_selecting_stays_consistent<T: Identified>(choice: Choice<T>, key: Seq<char>)
    requires
        consistent(choice),
        lookup(choice.items, key) is Some,
    ensures
        consistent(selecting(choice, key)),
{
    lemma_position(keys(choice.items), key);
    let k = position(keys(choice.items), key)->0;
    assert(choice.items[k].key() == keys(choice.items)[k]);
}

/// There is an item to use as soon as the list holds one, and it is one of the
/// list.
pub proof fn law_some_item_is_used<T: Identified>(choice: Choice<T>)
    ensures
        used(choice) is Some <==> choice.items.len() > 0,
        used(choice) is Some ==> choice.items.contains(used(choice)->0),
{
    lemma_position(keys(choice.items), choice.selected);
}

/// The item that was selected is the one that is used.
pub proof fn law_selected_is_used<T: Identified>(choice: Choice<T>, key: Seq<char>)
    requires
        lookup(choice.items, key) is Some,
    ensures
        used(selecting(choice, key)) == lookup(choice.items, key),
        used(selecting(choice, key))->0.key() == key,
{
    lemma_position(keys(choice.items), key);
    let k = position(keys(choice.items), key)->0;
    assert(keys(choice.items)[k] == choice.items[k].key());
}

/// Saving keeps every other item where it stands: the list is as long as it was
/// where the id was there, and else one longer, with the new item last.
pub proof fn law_saving_keeps_the_order<T: Identified>(items: Seq<T>, item: T)
    ensures
        lookup(items, item.key()) is Some ==> keys(with_item(items, item)) == keys(items),
        lookup(items, item.key()) is None ==> with_item(items, item) == items.push(item),
        forall|i: int|
            0 <= i < items.len() && items[i].key() != item.key() ==> with_item(items, item)[i]
                == #[trigger] items[i],
{
    lemma_position(keys(items), item.key());
    if let Some(k) = position(keys(items), item.key()) {
        assert(keys(items)[k] == items[k].key());
        assert(keys(with_item(items, item)) =~= keys(items));
    }
}

/// Deleting keeps what is left in its order: deleting from two lists one after
/// the other is deleting from each.
pub proof fn law_deleting_keeps_the_order<T: Identified>(
    front: Seq<T>,
    back: Seq<T>,
    item: T,
    key: Seq<char>,
)
    ensures
        without_key(front + back, key) == without_key(front, key) + without_key(back, key),
        without_key(seq![item], key) == if item.key() == key {
            Seq::empty()
        } else {
            seq![item]
        },
    decreases back.len(),
{
    reveal(Seq::filter);
    assert(seq![item].drop_last() =~= Seq::<T>::empty());
    assert(without_key(seq![item].drop_last(), key) == Seq::<T>::empty());
    if back.len() == 0 {
        assert(front + back =~= front);
        assert(without_key(front, key) + without_key(back, key) =~= without_key(front, key));
    } else {
        law_deleting_keeps_the_order(front, back.drop_last(), item, key);
        assert((front + back).drop_last() =~= front + back.drop_last());
        assert((front + back).last() == back.last());
        assert(without_key(front + back, key) =~= without_key(front, key) + without_key(back, key));
    }
}

/// The selection changes only where there was none to keep: saving selects the
/// item if nothing was selected, deleting selects the first of what is left if
/// the selected item goes, and else neither changes it. Without a selection that
/// stands for an item the first is used.
pub proof fn law_selection_is_kept<T: Identified>(choice: Choice<T>, item: T, key: Seq<char>)
    ensures
        choice.selected.len() > 0 ==> saved(choice, item).selected == choice.selected,
        choice.selected.len() == 0 ==> saved(choice, item).selected == item.key(),
        choice.selected != key ==> deleted(choice, key).selected == choice.selected,
        choice.selected == key && deleted(choice, key).items.len() > 0 ==> deleted(
            choice,
            key,
        ).selected == deleted(choice, key).items[0].key(),
        choice.selected == key && deleted(choice, key).items.len() == 0 ==> deleted(
            choice,
            key,
        ).selected.len() == 0,
        deleted(choice, key).items == without_key(choice.items, key),
        saved(choice, item).items == with_item(choice.items, item),
        selecting(choice, key).items == choice.items,
        selecting(choice, key).selected == key,
        lookup(choice.items, choice.selected) is Some ==> used(choice) == lookup(
            choice.items,
            choice.selected,
        ),
        lookup(choice.items, choice.selected) is None && choice.items.len() > 0 ==> used(choice)
            == Some(choice.items[0]),
{
}

} // verus!
