//! Messages.
use vstd::prelude::*;

use crate::message::{
    handle_list_message, lookup, send_message, with_chunk, AppMessageDict, OutboxStep,
    SubscriptionEvent, TaconiteMessageKey,
};

verus! {

// ── Keys ────────────────────────────────────────────────────────────────────────

/// The numbers of the keys and of the subscription events.
pub proof fn law_numbers(
    id: u32,
    kind: u32,
    index: u32,
    total: u32,
    event: u32,
    on: i32,
    off: i32,
)
    requires
        call_ensures(TaconiteMessageKey::as_u32, (TaconiteMessageKey::WindowId,), id),
        call_ensures(TaconiteMessageKey::as_u32, (TaconiteMessageKey::WindowType,), kind),
        call_ensures(TaconiteMessageKey::as_u32, (TaconiteMessageKey::ItemIndex,), index),
        call_ensures(TaconiteMessageKey::as_u32, (TaconiteMessageKey::ItemTotal,), total),
        call_ensures(
            TaconiteMessageKey::as_u32,
            (TaconiteMessageKey::SubscriptionEvent,),
            event,
        ),
        call_ensures(SubscriptionEvent::as_i32, (SubscriptionEvent::Subscribe,), on),
        call_ensures(SubscriptionEvent::as_i32, (SubscriptionEvent::Unsubscribe,), off),
    ensures
        id == 1413563215,
        index == 1413563216,
        total == 1413563217,
        kind == 1413563218,
        event == 1413563219,
        on == 0,
        off == 1,
{
}

// ── Lookup ──────────────────────────────────────────────────────────────────────

/// The tuple at place `k` is the first with this key.
pub open spec fn is_first(tuples: Seq<(u32, i32)>, key: u32, k: int) -> bool {
    &&& 0 <= k < tuples.len()
    &&& tuples[k].0 == key
    &&& forall|j: int| 0 <= j < k ==> (#[trigger] tuples[j]).0 != key
}

/// `found` is the integer of the first tuple with this key, or nothing where no tuple has
/// it.
pub open spec fn says(tuples: Seq<(u32, i32)>, key: u32, found: Option<i32>) -> bool {
    match found {
        Some(n) => exists|k: int| #[trigger] is_first(tuples, key, k) && tuples[k].1 == n,
        None => forall|j: int| 0 <= j < tuples.len() ==> (#[trigger] tuples[j]).0 != key,
    }
}

proof fn lemma_lookup_says(tuples: Seq<(u32, i32)>, key: u32)
    ensures
        says(tuples, key, lookup(tuples, key)),
    decreases tuples.len(),
{
    if tuples.len() > 0 {
        let rest = tuples.skip(1);
        if tuples[0].0 == key {
            assert(is_first(tuples, key, 0));
        } else {
            lemma_lookup_says(rest, key);
            if let Some(n) = lookup(rest, key) {
                let k = choose|k: int| #[trigger] is_first(rest, key, k) && rest[k].1 == n;
                assert forall|j: int| 0 <= j < k + 1 implies (#[trigger] tuples[j]).0 != key by {
                    if j > 0 {
                        assert(rest[j - 1] == tuples[j]);
                    }
                }
                assert(is_first(tuples, key, k + 1));
            } else {
                assert forall|j: int| 0 <= j < tuples.len() implies (#[trigger] tuples[j]).0
                    != key by {
                    if j > 0 {
                        assert(rest[j - 1] == tuples[j]);
                    }
                }
            }
        }
    }
}

proof fn lemma_says_one(
    tuples: Seq<(u32, i32)>,
    key: u32,
    one: Option<i32>,
    other: Option<i32>,
)
    requires
        says(tuples, key, one),
        says(tuples, key, other),
    ensures
        one == other,
{
    if one is Some && other is Some {
        let j = choose|k: int| #[trigger] is_first(tuples, key, k) && tuples[k].1 == one->0;
        let k = choose|k: int| #[trigger] is_first(tuples, key, k) && tuples[k].1 == other->0;
        if j < k {
            assert(tuples[j].0 != key);
        } else if k < j {
            assert(tuples[k].0 != key);
        }
    } else if one is Some {
        let j = choose|k: int| #[trigger] is_first(tuples, key, k) && tuples[k].1 == one->0;
        assert(tuples[j].0 != key);
    } else if other is Some {
        let k = choose|k: int| #[trigger] is_first(tuples, key, k) && tuples[k].1 == other->0;
        assert(tuples[k].0 != key);
    }
}

/// What a message says under a key is what a lookup finds there.
pub(crate) proof fn lemma_says_lookup(tuples: Seq<(u32, i32)>, key: u32, found: Option<i32>)
    requires
        says(tuples, key, found),
    ensures
        lookup(tuples, key) == found,
{
    lemma_lookup_says(tuples, key);
    lemma_says_one(tuples, key, lookup(tuples, key), found);
}

/// A message holds the tuples that it was made of, in order; a lookup finds the integer of
/// the first tuple with the key, and nothing exactly where no tuple has it.
pub proof fn law_lookup(
    tuples: Vec<(u32, i32)>,
    dict: AppMessageDict,
    key: u32,
    found: Option<i32>,
    k: int,
)
    requires
        call_ensures(AppMessageDict::new, (tuples,), dict),
        call_ensures(AppMessageDict::find_i32, (&dict, key), found),
    ensures
        is_first(tuples@, key, k) ==> found == Some(tuples@[k].1),
        found is None <==> forall|j: int|
            0 <= j < tuples@.len() ==> (#[trigger] tuples@[j]).0 != key,
{
    lemma_lookup_says(tuples@, key);
    if is_first(tuples@, key, k) {
        assert(says(tuples@, key, Some(tuples@[k].1)));
        lemma_says_one(tuples@, key, found, Some(tuples@[k].1));
    }
    if forall|j: int| 0 <= j < tuples@.len() ==> (#[trigger] tuples@[j]).0 != key {
        assert(says(tuples@, key, None));
        lemma_says_one(tuples@, key, found, None);
    }
}

// ── Lists ───────────────────────────────────────────────────────────────────────

/// The list before and after a chunk: a first chunk makes room for `total` items and
/// forgets what was there, any other keeps the room and what is there; and `item` goes to
/// the place `index`, if there is one.
pub open spec fn takes_chunk<T>(
    before: Seq<Option<T>>,
    index: int,
    total: int,
    item: T,
    after: Seq<Option<T>>,
) -> bool {
    &&& after.len() == if index == 0 {
        total
    } else {
        before.len() as int
    }
    &&& 0 <= index < after.len() ==> after[index] == Some(item)
    &&& forall|i: int| 0 <= i < after.len() && i != index ==> #[trigger] after[i] == if index == 0 {
        None
    } else {
        before[i]
    }
}

/// A list of `total` places with an item in each.
pub open spec fn is_full<T>(list: Seq<Option<T>>, total: int) -> bool {
    list.len() == total && forall|i: int| 0 <= i < total ==> (#[trigger] list[i]) is Some
}

/// A message of a list, by the index and the total that it announces.
///
/// It ends the list, which is empty and complete then, exactly when it announces no index,
/// no total or a total of zero, or an index that is not below the total. Any other brings a
/// chunk: its item is parsed of the message and goes to the place of its index, and the list
/// is complete exactly when it has as many places as announced and an item in each. A chunk
/// with a negative index has no place.
pub proof fn law_list_message<T, F: Fn(&AppMessageDict) -> T>(
    vec: &mut Vec<Option<T>>,
    dict: &AppMessageDict,
    parse_item: F,
    complete: bool,
    index: Option<i32>,
    total: Option<i32>,
)
    requires
        call_ensures(handle_list_message::<T, F>, (vec, dict, parse_item), complete),
        says(dict@, 1413563216, index),
        says(dict@, 1413563217, total),
    ensures
        index is None || total is None || total->0 == 0 || index->0 >= total->0 ==> complete
            && final(vec)@.len() == 0,
        index is Some && total is Some && total->0 != 0 && index->0 < total->0 ==> {
            &&& exists|item: T| #[trigger]
                call_ensures(parse_item, (dict,), item) && takes_chunk(
                    old(vec)@,
                    index->0 as int,
                    total->0 as int,
                    item,
                    final(vec)@,
                )
            &&& complete <==> is_full(final(vec)@, total->0 as int)
        },
{
    lemma_says_lookup(dict@, 1413563216, index);
    lemma_says_lookup(dict@, 1413563217, total);
    if index is Some && total is Some && total->0 != 0 && index->0 < total->0 {
        let item = choose|item: T| #[trigger]
            call_ensures(parse_item, (dict,), item) && final(vec)@ == with_chunk(
                old(vec)@,
                index->0,
                total->0,
                item,
            );
        assert(call_ensures(parse_item, (dict,), item));
        assert(takes_chunk(old(vec)@, index->0 as int, total->0 as int, item, final(vec)@));
    }
}

/// A chunk with an index from zero up to the total is always one of the list: its item is
/// parsed, and if the list has a place for it, it is there.
pub proof fn law_chunk_is_kept<T, F: Fn(&AppMessageDict) -> T>(
    vec: &mut Vec<Option<T>>,
    dict: &AppMessageDict,
    parse_item: F,
    complete: bool,
    index: i32,
    total: i32,
)
    requires
        call_ensures(handle_list_message::<T, F>, (vec, dict, parse_item), complete),
        says(dict@, 1413563216, Some(index)),
        says(dict@, 1413563217, Some(total)),
        0 <= index < total,
    ensures
        exists|item: T| #[trigger]
            call_ensures(parse_item, (dict,), item) && (index < old(vec)@.len() || index == 0
                ==> final(vec)@[index as int] == Some(item)),
        final(vec)@.len() == if index == 0 {
            total as nat
        } else {
            old(vec)@.len()
        },
{
    law_list_message(vec, dict, parse_item, complete, Some(index), Some(total));
    let item = choose|item: T| #[trigger]
        call_ensures(parse_item, (dict,), item) && takes_chunk(
            old(vec)@,
            index as int,
            total as int,
            item,
            final(vec)@,
        );
    assert(call_ensures(parse_item, (dict,), item));
}

/// A list may always be handed a message, if every message can be parsed.
pub proof fn law_any_message_can_be_handled<T, F: Fn(&AppMessageDict) -> T>(
    vec: &mut Vec<Option<T>>,
    dict: &AppMessageDict,
    parse_item: F,
)
    requires
        call_requires(parse_item, (dict,)),
    ensures
        call_requires(handle_list_message::<T, F>, (vec, dict, parse_item)),
{
}

/// Some message of the first `n` carries this index.
pub open spec fn has_come(indices: Seq<i32>, n: int, index: int) -> bool {
    exists|k: int| 0 <= k < n && #[trigger] indices[k] == index
}

proof fn lemma_list_run<T>(
    lists: Seq<Seq<Option<T>>>,
    indices: Seq<i32>,
    items: Seq<T>,
    total: int,
    n: int,
    i: int,
)
    requires
        0 < n <= indices.len(),
        items.len() == indices.len(),
        lists.len() == indices.len() + 1,
        indices[0] == 0,
        forall|k: int| 0 < k < indices.len() ==> 0 < #[trigger] indices[k] < total,
        forall|k: int| #![trigger indices[k]]
            0 <= k < indices.len() ==> takes_chunk(
                lists[k],
                indices[k] as int,
                total,
                items[k],
                lists[k + 1],
            ),
        0 <= i < total,
    ensures
        lists[n].len() == total,
        lists[n][i] is Some <==> has_come(indices, n, i),
        lists[n][i] is Some ==> exists|k: int|
            0 <= k < n && #[trigger] indices[k] == i && lists[n][i] == Some(items[k]) && forall|j:
                int| k < j < n ==> #[trigger] indices[j] != i,
    decreases n,
{
    assert(takes_chunk(lists[n - 1], indices[n - 1] as int, total, items[n - 1], lists[n]));
    if n == 1 {
        assert(indices[0] == 0);
        if i == 0 {
            assert(has_come(indices, n, i));
        }
    } else {
        lemma_list_run(lists, indices, items, total, n - 1, i);
        let last = indices[n - 1];
        if i == last {
            assert(has_come(indices, n, i));
            assert(lists[n][i] == Some(items[n - 1]));
        } else {
            assert(lists[n][i] == lists[n - 1][i]);
            if has_come(indices, n - 1, i) {
                let k = choose|k: int| 0 <= k < n - 1 && #[trigger] indices[k] == i;
                assert(has_come(indices, n, i));
            }
            if has_come(indices, n, i) {
                let k = choose|k: int| 0 <= k < n && #[trigger] indices[k] == i;
                assert(k < n - 1);
                assert(has_come(indices, n - 1, i));
            }
            if lists[n][i] is Some {
                let k = choose|k: int|
                    0 <= k < n - 1 && #[trigger] indices[k] == i && lists[n - 1][i] == Some(
                        items[k],
                    ) && forall|j: int| k < j < n - 1 ==> #[trigger] indices[j] != i;
                assert(indices[k] == i);
            }
        }
    }
}

/// A run of messages that starts with the first chunk of a list of `total` items and goes on
/// with other chunks of it, in any order and as often as they come. Whatever the list held
/// before, it has a place for each item in the end; a place is filled exactly when its chunk
/// has come, and holds what was parsed of the newest message that brought it; and the last
/// message is answered with "complete" exactly when every chunk has come.
pub proof fn law_list_of_messages<T, F: Fn(&AppMessageDict) -> T>(
    dicts: Seq<AppMessageDict>,
    parse_item: F,
    lists: Seq<Seq<Option<T>>>,
    answers: Seq<bool>,
    indices: Seq<i32>,
    total: i32,
    i: int,
)
    requires
        dicts.len() > 0,
        indices.len() == dicts.len(),
        lists.len() == dicts.len() + 1,
        forall|k: int| #![trigger indices[k]]
            0 <= k < dicts.len() ==> exists|vec: &mut Vec<Option<T>>| #[trigger]
                call_ensures(
                    handle_list_message::<T, F>,
                    (vec, &dicts[k], parse_item),
                    answers[k],
                ) && vec@ == lists[k] && final(vec)@ == lists[k + 1],
        forall|k: int| #![trigger indices[k]]
            0 <= k < dicts.len() ==> says(dicts[k]@, 1413563216, Some(indices[k])) && says(
                dicts[k]@,
                1413563217,
                Some(total),
            ),
        indices[0] == 0,
        forall|k: int| 0 < k < dicts.len() ==> 0 < #[trigger] indices[k] < total,
        0 <= i < total,
    ensures
        lists[dicts.len() as int].len() == total,
        lists[dicts.len() as int][i] is Some <==> has_come(indices, dicts.len() as int, i),
        lists[dicts.len() as int][i] matches Some(item) ==> exists|k: int|
            0 <= k < dicts.len() && #[trigger] indices[k] == i && call_ensures(
                parse_item,
                (&dicts[k],),
                item,
            ) && forall|j: int| k < j < dicts.len() ==> #[trigger] indices[j] != i,
        answers[dicts.len() - 1] <==> forall|m: int|
            0 <= m < total ==> #[trigger] has_come(indices, dicts.len() as int, m),
{
    let n = dicts.len() as int;
    let items = Seq::new(
        dicts.len(),
        |k: int|
            choose|item: T| #[trigger]
                call_ensures(parse_item, (&dicts[k],), item) && takes_chunk(
                    lists[k],
                    indices[k] as int,
                    total as int,
                    item,
                    lists[k + 1],
                ),
    );
    assert forall|k: int| #![trigger indices[k]] 0 <= k < n implies call_ensures(
        parse_item,
        (&dicts[k],),
        items[k],
    ) && takes_chunk(lists[k], indices[k] as int, total as int, items[k], lists[k + 1]) && (
    answers[k] <==> is_full(lists[k + 1], total as int)) by {
        let vec = choose|vec: &mut Vec<Option<T>>| #[trigger]
            call_ensures(handle_list_message::<T, F>, (vec, &dicts[k], parse_item), answers[k])
                && vec@ == lists[k] && final(vec)@ == lists[k + 1];
        law_list_message(
            vec,
            &dicts[k],
            parse_item,
            answers[k],
            Some(indices[k]),
            Some(total),
        );
    }
    lemma_list_run(lists, indices, items, total as int, n, i);
    let end = lists[n];
    assert forall|m: int| 0 <= m < total implies ((#[trigger] end[m]) is Some <==> has_come(
        indices,
        n,
        m,
    )) by {
        lemma_list_run(lists, indices, items, total as int, n, m);
    }
    let last = n - 1;
    assert(0 <= indices[last] < total);
    assert(answers[last] <==> is_full(lists[last + 1], total as int));
    if answers[n - 1] {
        assert forall|m: int| 0 <= m < total implies #[trigger] has_come(indices, n, m) by {
            assert(end[m] is Some);
        }
    }
    if end[i] is Some {
        let k = choose|k: int|
            0 <= k < n && #[trigger] indices[k] == i && end[i] == Some(items[k]) && forall|j: int|
                k < j < n ==> #[trigger] indices[j] != i;
        assert(indices[k] == i);
    }
}

// ── Sending ─────────────────────────────────────────────────────────────────────

/// Sending opens the outbox, writes each integer under its key in the given order, and sends
/// once, at the end.
pub proof fn law_send_message(key_values: &[(u32, i32)], steps: Vec<OutboxStep>, i: int)
    requires
        call_ensures(send_message, (key_values,), steps),
    ensures
        steps@.len() == key_values@.len() + 2,
        steps@[0] == OutboxStep::InitWrite,
        0 <= i < key_values@.len() ==> steps@[i + 1] == OutboxStep::WriteInt(
            key_values@[i].0,
            key_values@[i].1,
        ),
        steps@.last() == OutboxStep::Send,
{
}

} // verus!
