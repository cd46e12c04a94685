use dotnettauritest::batches::{after_batch, start_batches, BatchStep};
use dotnettauritest::cache::{after_cache_load, after_fetch, after_save, CacheAction};
use dotnettauritest::search::Gw2Item;

fn item(id: u32) -> Gw2Item {
    Gw2Item {
        id,
        chat_link: String::new(),
        name: format!("item {}", id),
        icon: Some("https://render.guildwars2.com/x.png".to_string()),
        description: None,
        item_type: String::from("Trophy"),
        rarity: String::from("Basic"),
        level: 0,
        vendor_value: 1,
        default_skin: Some(4),
        flags: vec!["NoSell".to_string()],
        game_types: vec![],
        restrictions: vec![],
        upgrades_into: None,
        upgrades_from: None,
        details: Some("{\"type\":\"Default\"}".to_string()),
    }
}

#[test]
fn a_readable_cache_answers_without_fetching() {
    match after_cache_load(Ok(vec![item(1), item(2)])) {
        CacheAction::Finish(Ok(items)) => assert_eq!(items.iter().map(|i| i.id).collect::<Vec<_>>(), vec![1, 2]),
        other => panic!("unexpected {:?}", other),
    }
}

#[test]
fn an_unreadable_cache_sends_to_the_api() {
    assert!(matches!(after_cache_load(Err("missing".to_string())), CacheAction::FetchFromApi));
}

#[test]
fn fetched_items_are_saved_first() {
    match after_fetch(Ok(vec![item(3)])) {
        CacheAction::SaveToFile(items) => assert_eq!(items[0].id, 3),
        other => panic!("unexpected {:?}", other),
    }
    match after_fetch(Err("timeout".to_string())) {
        CacheAction::Finish(Err(e)) => assert_eq!(e, "timeout"),
        other => panic!("unexpected {:?}", other),
    }
}

#[test]
fn saved_items_are_the_answer() {
    match after_save(Ok(()), vec![item(4)]) {
        CacheAction::Finish(Ok(items)) => assert_eq!(items[0].id, 4),
        other => panic!("unexpected {:?}", other),
    }
    match after_save(Err("disk full".to_string()), vec![item(4)]) {
        CacheAction::Finish(Err(e)) => assert_eq!(e, "disk full"),
        other => panic!("unexpected {:?}", other),
    }
}


fn ids(step: &BatchStep) -> Vec<u32> {
    match step {
        BatchStep::FetchNext(items) | BatchStep::Finish(Ok(items)) => items.iter().map(|i| i.id).collect(),
        BatchStep::Finish(Err(e)) => panic!("unexpected error {}", e),
    }
}

#[test]
fn no_batches_give_no_items() {
    assert!(matches!(start_batches(0), BatchStep::Finish(Ok(ref v)) if v.is_empty()));
    assert!(matches!(start_batches(3), BatchStep::FetchNext(ref v) if v.is_empty()));
}

#[test]
fn batches_are_gathered_in_order() {
    let step = after_batch(vec![], Ok(vec![item(1), item(2)]), 0, 3);
    assert!(matches!(step, BatchStep::FetchNext(_)));
    assert_eq!(ids(&step), vec![1, 2]);
    let gathered = match step { BatchStep::FetchNext(g) => g, _ => unreachable!() };
    let step = after_batch(gathered, Ok(vec![item(3)]), 1, 3);
    let gathered = match step { BatchStep::FetchNext(g) => g, other => panic!("{:?}", other) };
    let step = after_batch(gathered, Ok(vec![item(4)]), 2, 3);
    assert!(matches!(step, BatchStep::Finish(Ok(_))));
    assert_eq!(ids(&step), vec![1, 2, 3, 4]);
}

#[test]
fn a_failed_batch_ends_the_fetch() {
    match after_batch(vec![item(1)], Err("502".to_string()), 0, 2) {
        BatchStep::Finish(Err(e)) => assert_eq!(e, "502"),
        other => panic!("unexpected {:?}", other),
    }
}
