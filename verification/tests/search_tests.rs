use dotnettauritest::batches::item_batch_urls;
use dotnettauritest::search::{
    character_url, encode_character_name, find_item_by_name, first_item_named,
    format_character_summary, format_item_summary, item_url, parse_item_id, Gw2Character,
    Gw2Item, SearchKind,
};
use dotnettauritest::text::{parse_u32, render_u128, str_eq};

fn item(id: u32, name: &str) -> Gw2Item {
    Gw2Item {
        id,
        chat_link: String::from("[&AgEAAAA=]"),
        name: name.to_string(),
        icon: None,
        description: None,
        item_type: String::from("Weapon"),
        rarity: String::from("Exotic"),
        level: 80,
        vendor_value: 330,
        default_skin: None,
        flags: vec![],
        game_types: vec![],
        restrictions: vec![],
        upgrades_into: None,
        upgrades_from: None,
        details: None,
    }
}

#[test]
fn search_types_pick_their_search() {
    assert_eq!(SearchKind::from_search_type("item_id"), Ok(SearchKind::ItemId));
    assert_eq!(SearchKind::from_search_type("item_name"), Ok(SearchKind::ItemName));
    assert_eq!(SearchKind::from_search_type("character"), Ok(SearchKind::Character));
}

#[test]
fn unknown_search_type_is_refused() {
    assert_eq!(SearchKind::from_search_type("guild"), Err("Unknown search type".to_string()));
    assert_eq!(SearchKind::from_search_type(""), Err("Unknown search type".to_string()));
    assert_eq!(SearchKind::from_search_type("Item_id"), Err("Unknown search type".to_string()));
}

#[test]
fn item_ids_parse_like_u32() {
    assert_eq!(parse_item_id("30684"), Ok(30684));
    assert_eq!(parse_item_id("+7"), Ok(7));
    assert_eq!(parse_item_id("007"), Ok(7));
    assert_eq!(parse_item_id("4294967295"), Ok(4294967295));
}

#[test]
fn bad_item_ids_are_refused() {
    let refused = Err("Item ID must be a number".to_string());
    assert_eq!(parse_item_id(""), refused);
    assert_eq!(parse_item_id("+"), refused);
    assert_eq!(parse_item_id("-1"), refused);
    assert_eq!(parse_item_id("12a"), refused);
    assert_eq!(parse_item_id(" 12"), refused);
    assert_eq!(parse_item_id("4294967296"), refused);
    assert_eq!(parse_item_id("99999999999999999999"), refused);
}

#[test]
fn parse_agrees_with_std() {
    for s in ["0", "+0", "1", "65535", "4294967295", "4294967296", "-0", "", "+", "++1", "1_0", "٣"] {
        assert_eq!(parse_u32(s), s.parse::<u32>().ok(), "input {:?}", s);
    }
}

#[test]
fn rendering_then_parsing_gives_the_number_back() {
    for n in [0u32, 9, 10, 199, 30684, u32::MAX] {
        let text = render_u128(n as u128);
        assert_eq!(text, n.to_string());
        assert_eq!(parse_u32(&text), Some(n));
    }
    assert_eq!(render_u128(u128::MAX), u128::MAX.to_string());
}

#[test]
fn string_equality() {
    assert!(str_eq("Zojja", "Zojja"));
    assert!(!str_eq("Zojja", "zojja"));
    assert!(!str_eq("Zojj", "Zojja"));
    assert!(str_eq("", ""));
}

#[test]
fn item_url_names_the_item() {
    assert_eq!(item_url(30684), "https://api.guildwars2.com/v2/items/30684");
    assert_eq!(format_item_summary(30684, "Frostfang"), "30684: Frostfang");
}

#[test]
fn character_names_encode_spaces() {
    assert_eq!(encode_character_name("Rytlock Brimstone"), "Rytlock%20Brimstone");
    assert_eq!(encode_character_name(" a  b "), "%20a%20%20b%20");
    assert_eq!(encode_character_name("Zojja"), "Zojja");
    assert!(!encode_character_name("Logan Thackeray the Great").contains(' '));
}

#[test]
fn character_url_carries_the_key() {
    assert_eq!(
        character_url("Rytlock Brimstone"),
        "https://api.guildwars2.com/v2/characters/Rytlock%20Brimstone?access_token=API_KEY"
    );
}

#[test]
fn character_summary_reads_naturally() {
    let c = Gw2Character {
        name: "Zojja".to_string(),
        profession: "Engineer".to_string(),
        level: 80,
        race: "Asura".to_string(),
    };
    assert_eq!(format_character_summary(&c), "Zojja is a level 80 Asura Engineer");
}

#[test]
fn name_search_ignores_case_and_takes_the_first() {
    let items = vec![item(1, "Copper Ore"), item(2, "FROSTFANG"), item(3, "Frostfang")];
    assert_eq!(find_item_by_name(&items, "frostfang"), Ok("2: FROSTFANG".to_string()));
    assert_eq!(find_item_by_name(&items, "cOPPER ore"), Ok("1: Copper Ore".to_string()));
    assert_eq!(first_item_named(&items, "Frostfang"), Some(1));
    assert_eq!(first_item_named(&items, "Iron Ore"), None);
}

#[test]
fn name_search_lowercases_beyond_ascii() {
    let items = vec![item(5, "ÉCLAIR")];
    assert_eq!(find_item_by_name(&items, "éclair"), Ok("5: ÉCLAIR".to_string()));
}

#[test]
fn name_search_without_match_fails() {
    let items = vec![item(1, "Copper Ore")];
    assert_eq!(
        find_item_by_name(&items, "Iron Ore"),
        Err("No item found named 'Iron Ore'".to_string())
    );
    assert_eq!(find_item_by_name(&vec![], "x"), Err("No item found named 'x'".to_string()));
}

#[test]
fn no_ids_need_no_request() {
    assert!(item_batch_urls(&vec![]).is_empty());
}

#[test]
fn a_few_ids_take_one_request() {
    assert_eq!(
        item_batch_urls(&vec![24, 68, 69]),
        vec!["https://api.guildwars2.com/v2/items?ids=24,68,69".to_string()]
    );
}

#[test]
fn ids_are_split_by_two_hundred() {
    let ids: Vec<u32> = (1..=401).collect();
    let urls = item_batch_urls(&ids);
    assert_eq!(urls.len(), 3);
    for (k, chunk) in ids.chunks(200).enumerate() {
        let joined: Vec<String> = chunk.iter().map(|i| i.to_string()).collect();
        assert_eq!(urls[k], format!("https://api.guildwars2.com/v2/items?ids={}", joined.join(",")));
    }
    assert!(urls[2].ends_with("ids=401"));
}

#[test]
fn exactly_two_hundred_ids_take_one_request() {
    let ids: Vec<u32> = (0..200).collect();
    assert_eq!(item_batch_urls(&ids).len(), 1);
    let ids: Vec<u32> = (0..201).collect();
    assert_eq!(item_batch_urls(&ids).len(), 2);
}
