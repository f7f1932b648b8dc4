use pokemon_tcg_api_client::builder::energy::EnergyQueryBuilder;
use pokemon_tcg_api_client::builder::pokemon::PokemonQueryBuilder;
use pokemon_tcg_api_client::builder::set::SetQueryBuilder;
use pokemon_tcg_api_client::builder::trainer::TrainerQueryBuilder;
use pokemon_tcg_api_client::builder::{Ordering, QueryBuilder, QueryError};
use pokemon_tcg_api_client::pokemon_api_client::api_client::{CardId, SetId};

const CARDS: &str = "https://api.pokemontcg.io/v2/cards";

fn url(query: &str) -> String {
    format!("{CARDS}{query}")
}

#[test]
fn empty_builders_keep_the_url() {
    assert_eq!(PokemonQueryBuilder::new().build(CARDS), Ok(CARDS.to_string()));
    assert_eq!(TrainerQueryBuilder::new().build(CARDS), Ok(CARDS.to_string()));
    assert_eq!(SetQueryBuilder::new().build(CARDS), Ok(CARDS.to_string()));
    assert_eq!(EnergyQueryBuilder::new().build(CARDS), Ok(CARDS.to_string()));
    assert_eq!(PokemonQueryBuilder::new().build(""), Ok(String::new()));
}

#[test]
fn page_size_comes_before_page() {
    let b = PokemonQueryBuilder::new().with_page(2).with_page_size(10);
    assert_eq!(b.build(CARDS), Ok(url("?pageSize=10&page=2")));
}

#[test]
fn single_pagination_parameters() {
    let b = PokemonQueryBuilder::new().with_page(3);
    assert_eq!(b.build(CARDS), Ok(url("?page=3")));
    let b = SetQueryBuilder::new().with_page_size(250);
    assert_eq!(b.build(CARDS), Ok(url("?pageSize=250")));
}

#[test]
fn pagination_extremes() {
    let b = TrainerQueryBuilder::new().with_page_size(255).with_page(u32::MAX);
    assert_eq!(b.build(CARDS), Ok(url("?pageSize=255&page=4294967295")));
    let b = TrainerQueryBuilder::new().with_page_size(0).with_page(0);
    assert_eq!(b.build(CARDS), Ok(url("?pageSize=0&page=0")));
}

#[test]
fn later_page_replaces_earlier() {
    let b = EnergyQueryBuilder::new().with_page(1).with_page(7);
    assert_eq!(b.page(), Some(7));
    assert_eq!(b.build(CARDS), Ok(url("?page=7")));
}

#[test]
fn build_twice_gives_the_same_url() {
    let b = PokemonQueryBuilder::new()
        .add_name("pikachu")
        .add_select("id")
        .with_page_size(5);
    let first = b.build(CARDS);
    let second = b.build(CARDS);
    assert_eq!(first, second);
    assert_eq!(first, Ok(url("?pageSize=5&select=id&q=name%3Apikachu")));
}

#[test]
fn select_fields_are_comma_joined() {
    let b = PokemonQueryBuilder::new().add_select("id").add_select("name");
    assert_eq!(b.build(CARDS), Ok(url("?select=id%2Cname")));
    let b = SetQueryBuilder::new()
        .add_select("id")
        .add_select("name")
        .add_select("series");
    assert_eq!(b.build(CARDS), Ok(url("?select=id%2Cname%2Cseries")));
    let b = SetQueryBuilder::new().add_select("id");
    assert_eq!(b.build(CARDS), Ok(url("?select=id")));
}

#[test]
fn select_trailing_commas_are_trimmed() {
    let b = TrainerQueryBuilder::new().add_select("id,");
    assert_eq!(b.build(CARDS), Ok(url("?select=id")));
    let b = TrainerQueryBuilder::new().add_select("id").add_select("");
    assert_eq!(b.build(CARDS), Ok(url("?select=id")));
}

#[test]
fn repeated_name_is_an_or_group() {
    let b = PokemonQueryBuilder::new().add_name("bulb*").add_name("bulb*");
    assert_eq!(
        b.filters().get("name").map(|v| v.as_str()),
        Some("bulb*,bulb*")
    );
    assert_eq!(
        b.build(CARDS),
        Ok(url("?q=name%3Abulb%2A%20or%20name%3Abulb%2A"))
    );
}

#[test]
fn two_names_render_as_alternatives() {
    let b = PokemonQueryBuilder::new().add_name("pikachu").add_name("raichu");
    assert_eq!(
        b.build(CARDS),
        Ok(url("?q=name%3Apikachu%20or%20name%3Araichu"))
    );
}

#[test]
fn whitespace_terms_are_quoted() {
    let b = PokemonQueryBuilder::new().add_set_name("Sword & Shield");
    assert_eq!(
        b.build(CARDS),
        Ok(url("?q=set.series%3A%22Sword%20%26%20Shield%22"))
    );
}

#[test]
fn different_keys_are_joined_by_a_space() {
    let b = PokemonQueryBuilder::new().add_name("pikachu").add_rarity("Rare");
    assert_eq!(b.build(CARDS), Ok(url("?q=name%3Apikachu rarity%3ARare")));
    let b = PokemonQueryBuilder::new()
        .add_rarity("Rare")
        .add_name("pikachu")
        .add_rarity("Common");
    assert_eq!(
        b.build(CARDS),
        Ok(url("?q=rarity%3ARare%20or%20rarity%3ACommon name%3Apikachu"))
    );
}

#[test]
fn ordering_is_refused() {
    let b = PokemonQueryBuilder::new().add_ordering(Ordering::Ascending("name".to_string()));
    assert_eq!(b.build(CARDS), Err(QueryError::OrderingNotSupported));
    let b = SetQueryBuilder::new()
        .add_name("base")
        .add_ordering(Ordering::Descending("releaseDate".to_string()));
    assert_eq!(b.build(CARDS), Err(QueryError::OrderingNotSupported));
    assert_eq!(b.order_by().len(), 1);
}

#[test]
fn url_with_query_part_gets_ampersands() {
    let base = "https://api.pokemontcg.io/v2/cards?foo=bar";
    let b = PokemonQueryBuilder::new().with_page_size(5).add_name("mew");
    assert_eq!(
        b.build(base),
        Ok(format!("{base}&pageSize=5&q=name%3Amew"))
    );
    let b = TrainerQueryBuilder::new().add_name("mew");
    assert_eq!(b.build(base), Ok(format!("{base}&q=name%3Amew")));
}

#[test]
fn filters_follow_other_parameters() {
    let b = EnergyQueryBuilder::new()
        .add_name("fire")
        .add_select("id")
        .with_page(2);
    assert_eq!(b.build(CARDS), Ok(url("?page=2&select=id&q=name%3Afire")));
}

#[test]
fn empty_filter_value_keeps_its_key() {
    let b = PokemonQueryBuilder::new().add_name("");
    assert_eq!(b.build(CARDS), Ok(url("?q=name%3A")));
}

#[test]
fn commas_in_a_term_split_it() {
    let b = PokemonQueryBuilder::new().add_name("a,b");
    assert_eq!(b.build(CARDS), Ok(url("?q=name%3Aa%20or%20name%3Ab")));
}

#[test]
fn hp_range_inclusive_and_exclusive() {
    let b = PokemonQueryBuilder::new().add_hp_range("10", "100", true);
    assert_eq!(
        b.filters().get("hp").map(|v| v.as_str()),
        Some("[10 TO 100]")
    );
    assert_eq!(
        b.build(CARDS),
        Ok(url("?q=hp%3A%22%5B10%20TO%20100%5D%22"))
    );
    let b = PokemonQueryBuilder::new().add_hp_range("10", "100", false);
    assert_eq!(
        b.filters().get("hp").map(|v| v.as_str()),
        Some("{10 TO 100}")
    );
}

#[test]
fn attack_cost_range() {
    let b = PokemonQueryBuilder::new().add_attack_cost_range("1", "3", true);
    assert_eq!(
        b.filters().get("attacks.convertedEnergyCost").map(|v| v.as_str()),
        Some("[1 TO 3]")
    );
    let b = PokemonQueryBuilder::new().add_attack_cost_range("1", "*", false);
    assert_eq!(
        b.filters().get("attacks.convertedEnergyCost").map(|v| v.as_str()),
        Some("{1 TO *}")
    );
}

#[test]
fn pokemon_filter_keys() {
    let b = PokemonQueryBuilder::new()
        .add_id(&CardId("xy1-1".to_string()))
        .add_sub_types("Basic")
        .add_types("Fire")
        .add_evolves_from("Charmander")
        .add_evolves_to("Charizard");
    let f = b.filters();
    assert_eq!(f.len(), 5);
    assert_eq!(f.get("id").map(|v| v.as_str()), Some("xy1-1"));
    assert_eq!(f.get("subtypes").map(|v| v.as_str()), Some("Basic"));
    assert_eq!(f.get("types").map(|v| v.as_str()), Some("Fire"));
    assert_eq!(f.get("evolvesFrom").map(|v| v.as_str()), Some("Charmander"));
    assert_eq!(f.get("evolvesTo").map(|v| v.as_str()), Some("Charizard"));
    assert_eq!(f.key_at(0).as_str(), "id");
    assert_eq!(f.key_at(4).as_str(), "evolvesTo");
}

#[test]
fn trainer_filter_keys() {
    let b = TrainerQueryBuilder::new()
        .add_id(&CardId("base1-91".to_string()))
        .add_name("Bill")
        .add_set_series("Base");
    assert_eq!(
        b.build(CARDS),
        Ok(url("?q=id%3Abase1-91 name%3ABill set.series%3ABase"))
    );
}

#[test]
fn set_filter_keys() {
    let b = SetQueryBuilder::new()
        .add_id(&SetId("swsh1".to_string()))
        .add_name("Sword*")
        .add_sub_series("Sword & Shield")
        .add_ptcgo_code("SSH");
    let f = b.filters();
    assert_eq!(f.get("id").map(|v| v.as_str()), Some("swsh1"));
    assert_eq!(f.get("name").map(|v| v.as_str()), Some("Sword*"));
    assert_eq!(f.get("series").map(|v| v.as_str()), Some("Sword & Shield"));
    assert_eq!(f.get("ptcgoCode").map(|v| v.as_str()), Some("SSH"));
}

#[test]
fn energy_filter_keys() {
    let b = EnergyQueryBuilder::new()
        .add_id(&CardId("sm1-164".to_string()))
        .add_name("Water Energy")
        .add_sub_types("Basic")
        .add_set_name("Sun & Moon")
        .add_set_series("Sun");
    let f = b.filters();
    assert_eq!(f.get("id").map(|v| v.as_str()), Some("sm1-164"));
    assert_eq!(f.get("name").map(|v| v.as_str()), Some("Water Energy"));
    assert_eq!(f.get("subtypes").map(|v| v.as_str()), Some("Basic"));
    assert_eq!(f.get("set.name").map(|v| v.as_str()), Some("Sun & Moon"));
    assert_eq!(f.get("set.series").map(|v| v.as_str()), Some("Sun"));
    assert!(f.get("ser.series").is_none());
}

#[test]
fn getters_report_the_state() {
    let b = PokemonQueryBuilder::new()
        .with_page(4)
        .with_page_size(20)
        .add_select("id")
        .add_select("name");
    assert_eq!(b.page(), Some(4));
    assert_eq!(b.page_size(), Some(20));
    assert_eq!(b.select_fields(), &vec!["id".to_string(), "name".to_string()]);
    assert!(b.filters().is_empty());
    assert!(b.order_by().is_empty());
}

#[test]
fn non_ascii_terms_are_utf8_encoded() {
    let b = PokemonQueryBuilder::new().add_name("Flabébé");
    assert_eq!(b.build(CARDS), Ok(url("?q=name%3AFlab%C3%A9b%C3%A9")));
    let b = PokemonQueryBuilder::new().add_name("a-b_c.d~e");
    assert_eq!(b.build(CARDS), Ok(url("?q=name%3Aa-b_c.d~e")));
}

#[test]
fn only_group_separators_are_plain_spaces() {
    let b = PokemonQueryBuilder::new()
        .add_name("Mr. Mime")
        .add_rarity("Rare Holo")
        .add_types("Psychic");
    let rendered = b.build(CARDS).unwrap();
    assert_eq!(rendered.matches(' ').count(), 2);
    assert_eq!(
        rendered,
        url("?q=name%3A%22Mr.%20Mime%22 rarity%3A%22Rare%20Holo%22 types%3APsychic")
    );
}
