//! Searching the public Guild Wars 2 API: what a search request asks for,
//! the URLs it fetches, and the answers it gives back.
use vstd::prelude::*;
use crate::text::{law_parse_after_render, lemma_decimal_digits, str_eq, decimal, render_u128, parse_u32, parse_u32_spec, push_char, lowercase, to_lowercase};

verus! {

/// An upgrade link of an item (`upgrades_into` / `upgrades_from`).
#[derive(Clone, Debug)]
pub struct Gw2Upgrade {
    pub upgrade: String,
    pub item_id: u32,
}

/// An item as the `/v2/items` endpoint describes it. `details` holds the
/// item's free-form details object as JSON text.
#[derive(Clone, Debug)]
pub struct Gw2Item {
    pub id: u32,
    pub chat_link: String,
    pub name: String,
    pub icon: Option<String>,
    pub description: Option<String>,
    pub item_type: String,
    pub rarity: String,
    pub level: u32,
    pub vendor_value: u32,
    pub default_skin: Option<u32>,
    pub flags: Vec<String>,
    pub game_types: Vec<String>,
    pub restrictions: Vec<String>,
    pub upgrades_into: Option<Vec<Gw2Upgrade>>,
    pub upgrades_from: Option<Vec<Gw2Upgrade>>,
    pub details: Option<String>,
}

/// A character as the `/v2/characters/<name>` endpoint describes it.
#[derive(Clone, Debug)]
pub struct Gw2Character {
    pub name: String,
    pub profession: String,
    pub level: u32,
    pub race: String,
}

/// The three kinds of search the front end offers.
#[derive(Clone, Copy, Debug, PartialEq, Eq)]
pub enum SearchKind {
    ItemId,
    ItemName,
    Character,
}

/// The search kind that a search type names, if any.
pub open spec fn search_kind_of(search_type: Seq<char>) -> Option<SearchKind> {
    if search_type == "item_id"@ {
        Some(SearchKind::ItemId)
    } else if search_type == "item_name"@ {
        Some(SearchKind::ItemName)
    } else if search_type == "character"@ {
        Some(SearchKind::Character)
    } else {
        None
    }
}

impl SearchKind {
    /// Picks the search for a search type; any other type is refused with
    /// "Unknown search type".
    pub fn from_search_type(search_type: &str) -> (r: Result<SearchKind, String>)
        ensures
            match search_kind_of(search_type@) {
                Some(k) => r == Ok::<SearchKind, String>(k),
                None => r is Err && r->Err_0@ == "Unknown search type"@,
            },
    {
        if str_eq(search_type, "item_id") {
            Ok(SearchKind::ItemId)
        } else if str_eq(search_type, "item_name") {
            Ok(SearchKind::ItemName)
        } else if str_eq(search_type, "character") {
            Ok(SearchKind::Character)
        } else {
            Err("Unknown search type".to_owned())
        }
    }
}

/// Reads the item id of an "item_id" search; a value that is not a `u32`
/// is refused with "Item ID must be a number".
pub fn parse_item_id(value: &str) -> (r: Result<u32, String>)
    ensures
        match parse_u32_spec(value@) {
            Some(id) => r == Ok::<u32, String>(id),
            None => r is Err && r->Err_0@ == "Item ID must be a number"@,
        },
{
    match parse_u32(value) {
        Some(id) => Ok(id),
        None => Err("Item ID must be a number".to_owned()),
    }
}

/// The URL that describes one item.
pub fn item_url(id: u32) -> (r: String)
    ensures
        r@ == "https://api.guildwars2.com/v2/items/"@ + decimal(id as nat),
{
    let mut r = "https://api.guildwars2.com/v2/items/".to_owned();
    let digits = render_u128(id as u128);
    r.append(digits.as_str());
    r
}

/// The answer to an item search: the id, a colon, and the item's name.
pub open spec fn item_summary(id: u32, name: Seq<char>) -> Seq<char> {
    decimal(id as nat) + ": "@ + name
}

/// Renders the answer to an item search.
pub fn format_item_summary(id: u32, name: &str) -> (r: String)
    ensures
        r@ == item_summary(id, name@),
        r@.len() >= name@.len() + 3,
        parse_u32_spec(r@.take(r@.len() - name@.len() - 2)) == Some(id),
        r@.skip(r@.len() - name@.len() - 2) == ": "@ + name@,
{
    proof {
        law_item_summary_reads_back(id, name@);
    }
    let mut r = render_u128(id as u128);
    r.append(": ");
    r.append(name);
    r
}

/// `s` with every space replaced by `%20`, as `str::replace(" ", "%20")` does.
pub open spec fn encode_spaces(s: Seq<char>) -> Seq<char>
    decreases s.len(),
{
    if s.len() == 0 {
        Seq::empty()
    } else if s.last() == ' ' {
        encode_spaces(s.drop_last()).push('%').push('2').push('0')
    } else {
        encode_spaces(s.drop_last()).push(s.last())
    }
}

/// Replaces every space of a character name by `%20`.
pub fn encode_character_name(name: &str) -> (r: String)
    ensures
        r@ == encode_spaces(name@),
{
    let n = name.unicode_len();
    let mut r = String::new();
    let mut i: usize = 0;
    while i < n
        invariant
            i <= n,
            n == name@.len(),
            r@ == encode_spaces(name@.subrange(0, i as int)),
        decreases n - i,
    {
        let c = name.get_char(i);
        let ghost prefix = name@.subrange(0, i + 1);
        assert(prefix.drop_last() =~= name@.subrange(0, i as int));
        if c == ' ' {
            push_char(&mut r, '%');
            push_char(&mut r, '2');
            push_char(&mut r, '0');
        } else {
            push_char(&mut r, c);
        }
        i = i + 1;
    }
    assert(name@.subrange(0, n as int) =~= name@);
    r
}

/// The API key that character searches send.
pub open spec fn character_api_key() -> Seq<char> {
    "API_KEY"@
}

/// The URL that describes one character, authorized by the API key.
pub fn character_url(character_name: &str) -> (r: String)
    ensures
        r@ == "https://api.guildwars2.com/v2/characters/"@ + encode_spaces(character_name@)
            + "?access_token="@ + character_api_key(),
{
    let api_key = "API_KEY";
    let encoded = encode_character_name(character_name);
    let mut r = "https://api.guildwars2.com/v2/characters/".to_owned();
    r.append(encoded.as_str());
    r.append("?access_token=");
    r.append(api_key);
    r
}

/// The answer to a character search.
pub open spec fn character_summary(c: Gw2Character) -> Seq<char> {
    c.name@ + " is a level "@ + decimal(c.level as nat) + " "@ + c.race@ + " "@ + c.profession@
}

/// Renders the answer to a character search, e.g. "Zojja is a level 80 Asura Engineer".
pub fn format_character_summary(character: &Gw2Character) -> (r: String)
    ensures
        r@ == character_summary(*character),
        r@.take(character.name@.len() as int) == character.name@,
        r@.subrange(character.name@.len() as int, character.name@.len() + 12int) == " is a level "@,
        parse_u32_spec(
            r@.subrange(
                character.name@.len() + 12int,
                r@.len() - (" "@ + character.race@ + " "@ + character.profession@).len(),
            ),
        ) == Some(character.level),
        r@.skip(r@.len() - (" "@ + character.race@ + " "@ + character.profession@).len()) == " "@
            + character.race@ + " "@ + character.profession@,
{
    proof {
        law_character_summary_reads_back(*character);
    }
    let mut r = character.name.clone();
    r.append(" is a level ");
    let level = render_u128(character.level as u128);
    r.append(level.as_str());
    r.append(" ");
    r.append(character.race.as_str());
    r.append(" ");
    r.append(character.profession.as_str());
    r
}

/// An encoded character name holds no space; only the spaces of the name
/// change, so a name without spaces is sent as it is.
pub proof fn law_encoded_name_has_no_space(name: Seq<char>)
    ensures
        !encode_spaces(name).contains(' '),
        !name.contains(' ') ==> encode_spaces(name) == name,
    decreases name.len(),
{
    if name.len() > 0 {
        law_encoded_name_has_no_space(name.drop_last());
        let rest = encode_spaces(name.drop_last());
        let r = encode_spaces(name);
        assert forall|i: int| 0 <= i < r.len() implies r[i] != ' ' by {
            if i < rest.len() {
                assert(r[i] == rest[i]);
                assert(!rest.contains(' '));
                if rest[i] == ' ' {
                    assert(rest.contains(' '));
                }
            }
        }
        if !name.contains(' ') {
            assert forall|j: int| 0 <= j < name.drop_last().len() implies name.drop_last()[j] != ' ' by {
                assert(name.drop_last()[j] == name[j]);
            }
            assert(name[name.len() - 1] != ' ');
            assert(name.drop_last().push(name.last()) =~= name);
        }
    }
}

/// `items[i]` is the first item whose lowercased name is `wanted`.
pub open spec fn is_first_name_match(items: Seq<Gw2Item>, wanted: Seq<char>, i: int) -> bool {
    &&& 0 <= i < items.len()
    &&& lowercase(items[i].name@) == wanted
    &&& forall|j: int| 0 <= j < i ==> lowercase(#[trigger] items[j].name@) != wanted
}

/// The position of the first item whose lowercased name equals the
/// lowercased `value`, if any.
pub fn first_item_named(items: &Vec<Gw2Item>, value: &str) -> (r: Option<usize>)
    ensures
        match r {
            Some(i) => is_first_name_match(items@, lowercase(value@), i as int),
            None => forall|j: int| 0 <= j < items@.len()
                ==> lowercase(#[trigger] items@[j].name@) != lowercase(value@),
        },
{
    let wanted = to_lowercase(value);
    let mut i: usize = 0;
    while i < items.len()
        invariant
            i <= items@.len(),
            wanted@ == lowercase(value@),
            forall|j: int| 0 <= j < i ==> lowercase(#[trigger] items@[j].name@) != wanted@,
        decreases items@.len() - i,
    {
        let name_lower = to_lowercase(items[i].name.as_str());
        if str_eq(name_lower.as_str(), wanted.as_str()) {
            return Some(i);
        }
        i = i + 1;
    }
    None
}

/// Searches the cached items by name, ignoring case: the answer names the
/// first item whose lowercased name equals the lowercased search value;
/// when none does, the search fails with "No item found named '<value>'".
pub fn find_item_by_name(items: &Vec<Gw2Item>, value: &str) -> (r: Result<String, String>)
    ensures
        match r {
            Ok(s) => exists|i: int|
                #[trigger] is_first_name_match(items@, lowercase(value@), i)
                    && s@ == item_summary(items@[i].id, items@[i].name@),
            Err(e) => (forall|j: int| 0 <= j < items@.len()
                    ==> lowercase(#[trigger] items@[j].name@) != lowercase(value@))
                && e@ == "No item found named '"@ + value@ + "'"@,
        },
{
    match first_item_named(items, value) {
        Some(i) => {
            let summary = format_item_summary(items[i].id, items[i].name.as_str());
            assert(is_first_name_match(items@, lowercase(value@), i as int));
            Ok(summary)
        },
        None => {
            let mut e = "No item found named '".to_owned();
            e.append(value);
            e.append("'");
            Err(e)
        },
    }
}

/// The answer to an item search reads back: before the final `": " + name`
/// stands text that parses as the item's id.
pub proof fn law_item_summary_reads_back(id: u32, name: Seq<char>)
    ensures
        item_summary(id, name).len() >= name.len() + 3,
        parse_u32_spec(item_summary(id, name).take(item_summary(id, name).len() - name.len() - 2))
            == Some(id),
        item_summary(id, name).skip(item_summary(id, name).len() - name.len() - 2) == ": "@ + name,
{
    reveal_strlit(": ");
    lemma_decimal_digits(id as nat);
    law_parse_after_render(id);
    let s = item_summary(id, name);
    let d = decimal(id as nat);
    assert(s.len() == d.len() + 2 + name.len());
    assert(s.take(d.len() as int) =~= d);
    assert(s.skip(d.len() as int) =~= ": "@ + name);
}

/// The answer to a character search starts with the character's name as
/// the API gave it, then " is a level ", then text that parses as the
/// level, and ends with " <race> <profession>".
pub proof fn law_character_summary_reads_back(c: Gw2Character)
    ensures
        ({
            let s = character_summary(c);
            let n = c.name@.len() as int;
            let tail = " "@ + c.race@ + " "@ + c.profession@;
            &&& s.len() >= n + 12 + 1 + tail.len()
            &&& s.take(n) == c.name@
            &&& s.subrange(n, n + 12) == " is a level "@
            &&& s.skip(s.len() - tail.len()) == tail
            &&& parse_u32_spec(s.subrange(n + 12, s.len() - tail.len())) == Some(c.level)
        }),
{
    reveal_strlit(" is a level ");
    reveal_strlit(" ");
    lemma_decimal_digits(c.level as nat);
    law_parse_after_render(c.level);
    let s = character_summary(c);
    let n = c.name@.len() as int;
    let d = decimal(c.level as nat);
    let tail = " "@ + c.race@ + " "@ + c.profession@;
    assert(s =~= c.name@ + " is a level "@ + d + tail);
    assert(s.take(n) =~= c.name@);
    assert(s.subrange(n, n + 12) =~= " is a level "@);
    assert(s.skip(s.len() - tail.len()) =~= tail);
    assert(s.subrange(n + 12, s.len() - tail.len()) =~= d);
}

} // verus!
