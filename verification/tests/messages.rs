use taconite::message::OutboxStep;
use taconite::{
    handle_list_message, send_message, AppMessageDict, SubscriptionEvent, TaconiteMessageKey,
};

fn chunk(index: i32, total: i32) -> AppMessageDict {
    AppMessageDict::new(vec![
        (TaconiteMessageKey::ItemIndex.as_u32(), index),
        (TaconiteMessageKey::ItemTotal.as_u32(), total),
        (7, index * 10),
    ])
}

fn parse(dict: &AppMessageDict) -> i32 {
    dict.find_i32(7).unwrap_or(-1)
}

#[test]
fn keys_have_their_documented_numbers() {
    assert_eq!(TaconiteMessageKey::WindowId.as_u32(), 1413563215);
    assert_eq!(TaconiteMessageKey::ItemIndex.as_u32(), 1413563216);
    assert_eq!(TaconiteMessageKey::ItemTotal.as_u32(), 1413563217);
    assert_eq!(TaconiteMessageKey::WindowType.as_u32(), 0x5441_4352);
    assert_eq!(TaconiteMessageKey::SubscriptionEvent.as_u32(), 0x5441_4353);
    let keys = [
        TaconiteMessageKey::WindowId,
        TaconiteMessageKey::WindowType,
        TaconiteMessageKey::ItemIndex,
        TaconiteMessageKey::ItemTotal,
        TaconiteMessageKey::SubscriptionEvent,
    ];
    for one in keys {
        for other in keys {
            assert_eq!(one.as_u32() == other.as_u32(), one == other);
        }
    }
    assert_eq!(SubscriptionEvent::Subscribe.as_i32(), 0);
    assert_eq!(SubscriptionEvent::Unsubscribe.as_i32(), 1);
}

#[test]
fn the_first_tuple_of_a_key_is_found() {
    let dict = AppMessageDict::new(vec![(1, 10), (2, 20), (1, 30)]);
    assert_eq!(dict.find_i32(1), Some(10));
    assert_eq!(dict.find_i32(2), Some(20));
    assert_eq!(dict.find_i32(3), None);
}

#[test]
fn a_list_is_assembled_in_order() {
    let mut list = vec![Some(99)];
    assert!(!handle_list_message(&mut list, &chunk(0, 3), parse));
    assert_eq!(list, vec![Some(0), None, None]);
    assert!(!handle_list_message(&mut list, &chunk(1, 3), parse));
    assert!(handle_list_message(&mut list, &chunk(2, 3), parse));
    assert_eq!(list, vec![Some(0), Some(10), Some(20)]);
}

#[test]
fn a_list_is_assembled_out_of_order() {
    let mut list = Vec::new();
    assert!(!handle_list_message(&mut list, &chunk(0, 3), parse));
    assert!(!handle_list_message(&mut list, &chunk(2, 3), parse));
    assert!(!handle_list_message(&mut list, &chunk(2, 3), |_| 77));
    assert!(handle_list_message(&mut list, &chunk(1, 3), parse));
    assert_eq!(list, vec![Some(0), Some(10), Some(77)]);
}

#[test]
fn a_new_first_chunk_starts_afresh() {
    let mut list = Vec::new();
    assert!(handle_list_message(&mut list, &chunk(0, 1), parse));
    assert!(!handle_list_message(&mut list, &chunk(0, 2), parse));
    assert_eq!(list, vec![Some(0), None]);
    assert!(handle_list_message(&mut list, &chunk(1, 2), parse));
    assert!(!handle_list_message(&mut list, &chunk(0, 2), |_| 8));
    assert_eq!(list, vec![Some(8), None]);
}

#[test]
fn an_empty_list_is_complete() {
    let total = TaconiteMessageKey::ItemTotal.as_u32();
    let index = TaconiteMessageKey::ItemIndex.as_u32();
    for tuples in [
        vec![],
        vec![(total, 0), (index, 0)],
        vec![(total, 3)],
        vec![(index, 0)],
        vec![(total, 3), (index, 3)],
        vec![(total, 3), (index, 4)],
        vec![(total, -1), (index, 0)],
    ] {
        let mut list = vec![Some(1), None];
        assert!(handle_list_message(&mut list, &AppMessageDict::new(tuples), |_| panic!("parsed")));
        assert!(list.is_empty());
    }
}

#[test]
fn a_negative_index_fills_no_slot() {
    let mut list = vec![None];
    assert!(!handle_list_message(&mut list, &chunk(-1, 3), parse));
    assert_eq!(list, vec![None]);
    let mut list: Vec<Option<i32>> = vec![Some(1)];
    assert!(!handle_list_message(&mut list, &chunk(-5, -2), parse));
    assert_eq!(list, vec![Some(1)]);
}

#[test]
fn a_chunk_beyond_the_slots_is_dropped() {
    let mut list = vec![Some(5)];
    assert!(!handle_list_message(&mut list, &chunk(2, 3), parse));
    assert_eq!(list, vec![Some(5)]);
    let mut list = Vec::new();
    assert!(!handle_list_message(&mut list, &chunk(1, 3), |_| 20));
    assert!(list.is_empty());
}

#[test]
fn a_message_is_written_in_order() {
    assert_eq!(
        send_message(&[(TaconiteMessageKey::WindowId.as_u32(), 4), (9, -1)]),
        vec![
            OutboxStep::InitWrite,
            OutboxStep::WriteInt(0x5441_434F, 4),
            OutboxStep::WriteInt(9, -1),
            OutboxStep::Send,
        ]
    );
    assert_eq!(send_message(&[]), vec![OutboxStep::InitWrite, OutboxStep::Send]);
}
