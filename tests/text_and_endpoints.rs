use pokemon_tcg_api_client::filter::FilterMap;
use pokemon_tcg_api_client::pokemon_api_client::api_client::{
    item_url, resource_url, API_KEY_HEADER, API_URL,
};
use pokemon_tcg_api_client::text::enclose_whitespace_strings;

#[test]
fn quoting_only_with_whitespace() {
    assert_eq!(enclose_whitespace_strings("pikachu"), "pikachu");
    assert_eq!(enclose_whitespace_strings("Sword & Shield"), "\"Sword & Shield\"");
    assert_eq!(enclose_whitespace_strings("a\tb"), "\"a\tb\"");
    assert_eq!(enclose_whitespace_strings("a\u{3000}b"), "\"a\u{3000}b\"");
    assert_eq!(enclose_whitespace_strings(""), "");
}

#[test]
fn filter_map_accumulates_in_key_order() {
    let m = FilterMap::new()
        .add_or_update("name", "a")
        .add_or_update("rarity", "Rare")
        .add_or_update("name", "b");
    assert_eq!(m.len(), 2);
    assert_eq!(m.key_at(0).as_str(), "name");
    assert_eq!(m.value_at(0).as_str(), "a,b");
    assert_eq!(m.key_at(1).as_str(), "rarity");
    assert_eq!(m.value_at(1).as_str(), "Rare");
    assert!(m.get("types").is_none());
}

#[test]
fn endpoint_urls() {
    assert_eq!(API_URL, "https://api.pokemontcg.io/v2");
    assert_eq!(API_KEY_HEADER, "X-Api-Key");
    assert_eq!(resource_url("cards"), "https://api.pokemontcg.io/v2/cards");
    assert_eq!(
        item_url("sets", "swsh1"),
        "https://api.pokemontcg.io/v2/sets/swsh1"
    );
}
