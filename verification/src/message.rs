//! Messages between the watch and the phone.
use vstd::prelude::*;

verus! {

/// Message keys reserved by the framework. An app has to list them among its own keys
/// with these numeric values:
///
/// - `WindowId`  = 0x5441434F (1413563215) — `"taconite_window_id"`
/// - `ItemIndex` = 0x54414350 (1413563216) — `"taconite_item_index"`
/// - `ItemTotal` = 0x54414351 (1413563217) — `"taconite_item_total"`
/// - `WindowType` = 0x54414352 and `SubscriptionEvent` = 0x54414353 are for messages that
///   the watch sends.
///
/// A message from the phone with `WindowId = 0` says that the phone is ready.
#[derive(Clone, Copy, Debug, PartialEq, Eq, Structural)]
pub enum TaconiteMessageKey {
    WindowId,
    WindowType,
    ItemIndex,
    ItemTotal,
    SubscriptionEvent,
}

impl TaconiteMessageKey {
    /// The numeric value of the key.
    pub open spec fn number(self) -> u32 {
        match self {
            TaconiteMessageKey::WindowId => 0x5441_434F,
            TaconiteMessageKey::WindowType => 0x5441_4352,
            TaconiteMessageKey::ItemIndex => 0x5441_4350,
            TaconiteMessageKey::ItemTotal => 0x5441_4351,
            TaconiteMessageKey::SubscriptionEvent => 0x5441_4353,
        }
    }

    /// The numeric value of the key.
    pub fn as_u32(self) -> (key: u32)
        ensures
            key == self.number(),
    {
        match self {
            TaconiteMessageKey::WindowId => 0x5441_434F,
            TaconiteMessageKey::WindowType => 0x5441_4352,
            TaconiteMessageKey::ItemIndex => 0x5441_4350,
            TaconiteMessageKey::ItemTotal => 0x5441_4351,
            TaconiteMessageKey::SubscriptionEvent => 0x5441_4353,
        }
    }
}

/// What a screen tells the phone about itself.
#[derive(Clone, Copy, Debug, PartialEq, Eq, Structural)]
pub enum SubscriptionEvent {
    Subscribe,
    Unsubscribe,
}

impl SubscriptionEvent {
    /// The numeric value of the event.
    pub fn as_i32(self) -> (event: i32)
        ensures
            event == if self == SubscriptionEvent::Subscribe {
                0i32
            } else {
                1i32
            },
    {
        match self {
            SubscriptionEvent::Subscribe => 0,
            SubscriptionEvent::Unsubscribe => 1,
        }
    }
}

/// The integers of a message, keyed.
pub struct AppMessageDict {
    tuples: Vec<(u32, i32)>,
}

impl View for AppMessageDict {
    type V = Seq<(u32, i32)>;

    closed spec fn view(&self) -> Seq<(u32, i32)> {
        self.tuples@
    }
}

/// The integer of the first tuple with this key.
pub open spec fn lookup(tuples: Seq<(u32, i32)>, key: u32) -> Option<i32>
    decreases tuples.len(),
{
    if tuples.len() == 0 {
        None
    } else if tuples[0].0 == key {
        Some(tuples[0].1)
    } else {
        lookup(tuples.skip(1), key)
    }
}

impl AppMessageDict {
    /// A message with these integers.
    pub fn new(tuples: Vec<(u32, i32)>) -> (dict: Self)
        ensures
            dict@ == tuples@,
    {
        AppMessageDict { tuples }
    }

    /// The integer of the first tuple with this key, if there is one.
    pub fn find_i32(&self, key: u32) -> (found: Option<i32>)
        ensures
            found == lookup(self@, key),
    {
        let mut i: usize = 0;
        assert(self@.skip(0) =~= self@);
        while i < self.tuples.len()
            invariant
                i <= self.tuples.len(),
                lookup(self@, key) == lookup(self@.skip(i as int), key),
                self@ == self.tuples@,
            decreases self.tuples.len() - i,
        {
            if self.tuples[i].0 == key {
                return Some(self.tuples[i].1);
            }
            assert(self@.skip(i as int).skip(1) =~= self@.skip(i + 1));
            i += 1;
        }
        None
    }
}

/// A chunk with this index and total says that the list is empty, or does not belong to
/// one.
pub open spec fn ends_list(index: Option<i32>, total: i32) -> bool {
    total == 0 || index is None || index->0 >= total
}

/// Every slot of the list is filled.
pub open spec fn is_complete<T>(slots: Seq<Option<T>>) -> bool {
    forall|i: int| 0 <= i < slots.len() ==> (#[trigger] slots[i]) is Some
}

/// A list of which nothing has arrived yet.
pub open spec fn empty_slots<T>(total: nat) -> Seq<Option<T>> {
    Seq::new(total, |i: int| None)
}

/// The list after the chunk `index` of `total` brought `item`: the first chunk starts the
/// list afresh, and each chunk fills its own slot, if there is one.
pub open spec fn with_chunk<T>(slots: Seq<Option<T>>, index: i32, total: i32, item: T) -> Seq<
    Option<T>,
> {
    let base = if index == 0 {
        empty_slots(total as nat)
    } else {
        slots
    };
    if 0 <= index < base.len() {
        base.update(index as int, Some(item))
    } else {
        base
    }
}

/// The total that a message announces.
pub open spec fn announced_total(tuples: Seq<(u32, i32)>) -> i32 {
    match lookup(tuples, TaconiteMessageKey::ItemTotal.number()) {
        Some(total) => total,
        None => 0,
    }
}

/// The index that a message announces.
pub open spec fn announced_index(tuples: Seq<(u32, i32)>) -> Option<i32> {
    lookup(tuples, TaconiteMessageKey::ItemIndex.number())
}

/// Receive a paged list.
///
/// Builds `vec` as chunks arrive. Returns whether every one of the announced items has been
/// received, which is also the case of an empty list.
pub fn handle_list_message<T, F: Fn(&AppMessageDict) -> T>(
    vec: &mut Vec<Option<T>>,
    dict: &AppMessageDict,
    parse_item: F,
) -> (complete: bool)
    requires
        !ends_list(announced_index(dict@), announced_total(dict@)) ==> call_requires(
            parse_item,
            (dict,),
        ),
    ensures
        complete == (ends_list(announced_index(dict@), announced_total(dict@)) || (
        final(vec)@.len() == announced_total(dict@) && is_complete(final(vec)@))),
        ends_list(announced_index(dict@), announced_total(dict@)) ==> final(vec)@.len() == 0,
        !ends_list(announced_index(dict@), announced_total(dict@)) ==> exists|item: T| #[trigger]
            call_ensures(parse_item, (dict,), item) && final(vec)@ == with_chunk(
                old(vec)@,
                announced_index(dict@)->0,
                announced_total(dict@),
                item,
            ),
{
    let found = dict.find_i32(TaconiteMessageKey::ItemIndex.as_u32());
    let total: i32 = match dict.find_i32(TaconiteMessageKey::ItemTotal.as_u32()) {
        Some(total) => total,
        None => 0,
    };
    let index: i32 = match found {
        Some(index) if total != 0 && index < total => index,
        _ => {
            vec.clear();
            return true;
        },
    };
    let item = parse_item(dict);
    let ghost parsed = item;
    if index == 0 {
        clear_slots(vec, total as usize);
    }
    if index >= 0 && (index as usize) < vec.len() {
        let slot: usize = index as usize;
        vec[slot] = Some(item);
    }
    assert(vec@ =~= with_chunk(old(vec)@, index, total, parsed));
    total >= 0 && vec.len() == total as usize && all_filled(vec)
}

/// Make room for `total` items of which nothing has arrived yet.
fn clear_slots<T>(vec: &mut Vec<Option<T>>, total: usize)
    ensures
        final(vec)@ == empty_slots::<T>(total as nat),
{
    vec.clear();
    let mut i: usize = 0;
    while i < total
        invariant
            i <= total,
            vec@ =~= empty_slots::<T>(i as nat),
        decreases total - i,
    {
        vec.push(None);
        i += 1;
    }
}

/// Whether every slot is filled.
fn all_filled<T>(vec: &Vec<Option<T>>) -> (filled: bool)
    ensures
        filled == is_complete(vec@),
{
    let mut i: usize = 0;
    while i < vec.len()
        invariant
            i <= vec.len(),
            forall|j: int| 0 <= j < i ==> (#[trigger] vec@[j]) is Some,
        decreases vec.len() - i,
    {
        if vec[i].is_none() {
            return false;
        }
        i += 1;
    }
    true
}

/// One step of sending a message.
#[derive(Clone, Copy, Debug, PartialEq, Eq, Structural)]
pub enum OutboxStep {
    /// Open the outbox for writing.
    InitWrite,
    /// Write an integer under a key.
    WriteInt(u32, i32),
    /// Send what was written.
    Send,
}

/// The steps that send these integers.
pub open spec fn sending(key_values: Seq<(u32, i32)>) -> Seq<OutboxStep> {
    seq![OutboxStep::InitWrite] + key_values.map_values(
        |kv: (u32, i32)| OutboxStep::WriteInt(kv.0, kv.1),
    ) + seq![OutboxStep::Send]
}

/// Send a small message to the phone.
pub fn send_message(key_values: &[(u32, i32)]) -> (steps: Vec<OutboxStep>)
    ensures
        steps@ == sending(key_values@),
{
    let mut steps: Vec<OutboxStep> = Vec::new();
    steps.push(OutboxStep::InitWrite);
    let mut i: usize = 0;
    while i < key_values.len()
        invariant
            i <= key_values.len(),
            steps@ =~= seq![OutboxStep::InitWrite] + key_values@.take(i as int).map_values(
                |kv: (u32, i32)| OutboxStep::WriteInt(kv.0, kv.1),
            ),
        decreases key_values.len() - i,
    {
        let kv: (u32, i32) = key_values[i];
        steps.push(OutboxStep::WriteInt(kv.0, kv.1));
        i += 1;
    }
    assert(key_values@.take(i as int) =~= key_values@);
    steps.push(OutboxStep::Send);
    assert(steps@ =~= sending(key_values@));
    steps
}

} // verus!
