//! Identifiers and endpoint URLs of the Pokemon TCG API.
use vstd::prelude::*;
use vstd::string::*;

pub use crate::resource::ApiResource;

verus! {

/// Base URL of the API.
pub const API_URL: &'static str = "https://api.pokemontcg.io/v2";

/// Name of the request header that carries the API key.
pub const API_KEY_HEADER: &'static str = "X-Api-Key";

/// Identifier of a card, kept apart from names and other strings.
pub struct CardId(pub String);

/// Identifier of a card set, kept apart from names and other strings.
pub struct SetId(pub String);

/// The URL of a resource collection, such as `cards` or `rarities`.
pub fn resource_url(resource: &str) -> (r: String)
    ensures
        r@ == API_URL@ + seq!['/'] + resource@,
{
    let mut r = API_URL.to_owned();
    r.append("/");
    r.append(resource);
    proof {
        reveal_strlit("/");
    }
    r
}

/// The URL of one item of a resource collection.
pub fn item_url(resource: &str, id: &str) -> (r: String)
    ensures
        r@ == API_URL@ + seq!['/'] + resource@ + seq!['/'] + id@,
{
    let mut r = resource_url(resource);
    r.append("/");
    r.append(id);
    proof {
        reveal_strlit("/");
    }
    r
}

} // verus!
