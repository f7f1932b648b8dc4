//! Query builders and the URL renderer they share.
//!
//! A builder collects filters, ordering, field selection and pagination;
//! `QueryBuilder::build` appends them to a resource URL as query parameters.
pub mod energy;
pub mod pokemon;
pub mod set;
pub mod trainer;

use vstd::prelude::*;
use vstd::string::*;

use crate::encoding::{decimal, decimal_string, encode, url_encoded};
use crate::filter::{upserted, FilterEntries, FilterMap};
use crate::text::{
    chars_of, enclose_whitespace_strings, join, join_strings, quoted, select_list, select_value,
    split_commas, split_terms, views,
};

verus! {

/// A field to order the results by, with its direction.
#[derive(Clone, Debug)]
pub enum Ordering {
    Ascending(String),
    Descending(String),
}

/// Why a query could not be rendered.
#[derive(Clone, Copy, Debug, PartialEq, Eq, Structural)]
pub enum QueryError {
    /// The API's ordering parameter has no rendering yet, so a query that
    /// asks for an ordering is refused rather than sent without it.
    OrderingNotSupported,
}

/// What a query builder holds.
pub struct QueryModel {
    pub filters: FilterEntries,
    pub page: Option<u32>,
    pub page_size: Option<u8>,
    pub order_by: Seq<Ordering>,
    pub select_fields: Seq<Seq<char>>,
}

impl QueryModel {
    /// A builder state with nothing set.
    pub open spec fn empty() -> QueryModel {
        QueryModel {
            filters: seq![],
            page: None,
            page_size: None,
            order_by: seq![],
            select_fields: seq![],
        }
    }

    /// The state with its page size set to `n`.
    pub open spec fn with_page_size(self, n: u8) -> QueryModel {
        QueryModel { page_size: Some(n), ..self }
    }

    /// The state with its page set to `n`.
    pub open spec fn with_page(self, n: u32) -> QueryModel {
        QueryModel { page: Some(n), ..self }
    }

    /// The state with `o` added at the end of its ordering.
    pub open spec fn with_ordering(self, o: Ordering) -> QueryModel {
        QueryModel { order_by: self.order_by.push(o), ..self }
    }

    /// The state with `field` added at the end of its field selection.
    pub open spec fn with_select(self, field: Seq<char>) -> QueryModel {
        QueryModel { select_fields: self.select_fields.push(field), ..self }
    }

    /// The state with term `value` added under filter key `key`.
    pub open spec fn with_filter(self, key: Seq<char>, value: Seq<char>) -> QueryModel {
        QueryModel { filters: upserted(self.filters, key, value), ..self }
    }
}

/// A range term of the query language: `[low TO high]` when the bounds are
/// included, `{low TO high}` when they are not.
pub open spec fn range_term(low: Seq<char>, high: Seq<char>, is_inclusive: bool) -> Seq<char> {
    let to = seq![' ', 'T', 'O', ' '];
    if is_inclusive {
        seq!['['] + low + to + high + seq![']']
    } else {
        seq!['{'] + low + to + high + seq!['}']
    }
}

/// Renders a range term from its bounds; the bounds are taken as they are.
pub(crate) fn range_value(low: &str, high: &str, is_inclusive: bool) -> (r: String)
    ensures
        r@ == range_term(low@, high@, is_inclusive),
{
    let mut r = if is_inclusive {
        "[".to_owned()
    } else {
        "{".to_owned()
    };
    r.append(low);
    r.append(" TO ");
    r.append(high);
    if is_inclusive {
        r.append("]");
    } else {
        r.append("}");
    }
    proof {
        reveal_strlit("[");
        reveal_strlit("]");
        reveal_strlit("{");
        reveal_strlit("}");
        reveal_strlit(" TO ");
        assert(" TO "@ =~= seq![' ', 'T', 'O', ' ']);
    }
    r
}

/// Whether a URL already has a query part.
pub open spec fn has_query(url: Seq<char>) -> bool {
    exists|i: int| 0 <= i < url.len() && url[i] == '?'
}

/// A query parameter, key and value percent-encoded.
pub open spec fn param(key: Seq<char>, value: Seq<char>) -> Seq<char> {
    url_encoded(key) + seq!['='] + url_encoded(value)
}

/// One term of a filter: the key, a colon and the term, quoted if it holds whitespace.
pub open spec fn term_fragment(key: Seq<char>, term: Seq<char>) -> Seq<char> {
    key + seq![':'] + quoted(term)
}

/// The OR-group of one filter key: a fragment for each comma-separated term,
/// joined by ` or `.
pub open spec fn group_text(key: Seq<char>, value: Seq<char>) -> Seq<char> {
    join(
        split_commas(value).map_values(|t: Seq<char>| term_fragment(key, t)),
        seq![' ', 'o', 'r', ' '],
    )
}

/// The OR-groups of all filter keys, each percent-encoded as a whole, joined by
/// a plain space (the API's AND).
pub open spec fn filter_expression(filters: FilterEntries) -> Seq<char> {
    join(
        filters.map_values(|e: (Seq<char>, Seq<char>)| url_encoded(group_text(e.0, e.1))),
        seq![' '],
    )
}

/// The `q` parameter of a filter map.
pub open spec fn filter_param(filters: FilterEntries) -> Seq<char> {
    url_encoded(seq!['q']) + seq!['='] + filter_expression(filters)
}

/// The query parameters of a builder state, in the order they are rendered:
/// page size, page, field selection, filters.
pub open spec fn query_params(m: QueryModel) -> Seq<Seq<char>> {
    (if let Some(n) = m.page_size {
        seq![param("pageSize"@, decimal(n as nat))]
    } else {
        seq![]
    }) + (if let Some(n) = m.page {
        seq![param("page"@, decimal(n as nat))]
    } else {
        seq![]
    }) + (if m.select_fields.len() > 0 {
        seq![param("select"@, select_value(m.select_fields))]
    } else {
        seq![]
    }) + (if m.filters.len() > 0 {
        seq![filter_param(m.filters)]
    } else {
        seq![]
    })
}

/// The character that introduces parameter `i`: `?` for the first one of a
/// URL without a query part, `&` for every other.
pub open spec fn separator(url: Seq<char>, i: int) -> char {
    if i == 0 && !has_query(url) {
        '?'
    } else {
        '&'
    }
}

/// A URL with parameters appended, each introduced by its separator.
pub open spec fn attach_params(url: Seq<char>, params: Seq<Seq<char>>) -> Seq<char>
    decreases params.len(),
{
    if params.len() == 0 {
        url
    } else {
        attach_params(url, params.drop_last()) + seq![separator(url, params.len() - 1)]
            + params.last()
    }
}

/// The request URL for a builder state and a base URL.
pub open spec fn rendered(m: QueryModel, url: Seq<char>) -> Seq<char> {
    attach_params(url, query_params(m))
}

/// Whether `url` already holds a `?`.
fn has_query_part(url: &str) -> (r: bool)
    ensures
        r == has_query(url@),
{
    let cs = chars_of(url);
    let mut i: usize = 0;
    while i < cs.len()
        invariant
            i <= cs.len(),
            cs@ == url@,
            forall|j: int| 0 <= j < i ==> url@[j] != '?',
        decreases cs.len() - i,
    {
        if cs[i] == '?' {
            return true;
        }
        i += 1;
    }
    false
}

/// Appends the parameter `key=value`, both percent-encoded, introduced by `&`
/// when the URL already has a query part and by `?` otherwise.
fn build_query_param(builder: &mut String, query_index: &mut bool, key: &str, value: &str)
    ensures
        final(builder)@ == old(builder)@ + seq![if *old(query_index) { '&' } else { '?' }] + param(
            key@,
            value@,
        ),
        *final(query_index),
{
    if *query_index {
        builder.append("&");
        proof {
            reveal_strlit("&");
        }
    } else {
        builder.append("?");
        proof {
            reveal_strlit("?");
        }
    }
    let k = encode(key);
    builder.append(k.as_str());
    builder.append("=");
    proof {
        reveal_strlit("=");
    }
    let v = encode(value);
    builder.append(v.as_str());
    *query_index = true;
}

/// The OR-group text of one filter key.
fn filter_group(key: &str, value: &str) -> (r: String)
    ensures
        r@ == group_text(key@, value@),
{
    let terms = split_terms(value);
    let mut fragments: Vec<String> = Vec::new();
    let mut i: usize = 0;
    while i < terms.len()
        invariant
            i <= terms.len(),
            views(terms@) == split_commas(value@),
            views(fragments@) == views(terms@).subrange(0, i as int).map_values(
                |t: Seq<char>| term_fragment(key@, t),
            ),
        decreases terms.len() - i,
    {
        let mut fragment = key.to_owned();
        fragment.append(":");
        let term = enclose_whitespace_strings(terms[i].as_str());
        fragment.append(term.as_str());
        proof {
            reveal_strlit(":");
        }
        let ghost before = views(fragments@);
        let ghost fv = fragment@;
        assert(fv == term_fragment(key@, views(terms@)[i as int]));
        fragments.push(fragment);
        assert(views(fragments@) =~= before.push(fv));
        assert(views(terms@).subrange(0, i + 1) =~= views(terms@).subrange(0, i as int).push(
            views(terms@)[i as int],
        ));
        assert(views(fragments@) =~= views(terms@).subrange(0, i + 1).map_values(
            |t: Seq<char>| term_fragment(key@, t),
        ));
        i += 1;
    }
    assert(views(terms@).subrange(0, terms.len() as int) =~= views(terms@));
    let r = join_strings(&fragments, " or ");
    proof {
        reveal_strlit(" or ");
        assert(" or "@ =~= seq![' ', 'o', 'r', ' ']);
    }
    r
}

/// Appends the value of the `q` parameter: each key's OR-group, percent-encoded
/// as a whole, with a plain space between groups.
fn build_filter_query(builder: &mut String, filters: &FilterMap)
    ensures
        final(builder)@ == old(builder)@ + filter_expression(filters@),
{
    let mut groups: Vec<String> = Vec::new();
    let n = filters.len();
    let mut i: usize = 0;
    while i < n
        invariant
            i <= n,
            n == filters@.len(),
            views(groups@) == filters@.subrange(0, i as int).map_values(
                |e: (Seq<char>, Seq<char>)| url_encoded(group_text(e.0, e.1)),
            ),
        decreases n - i,
    {
        let group = filter_group(filters.key_at(i).as_str(), filters.value_at(i).as_str());
        let encoded = encode(group.as_str());
        let ghost before = views(groups@);
        let ghost gv = encoded@;
        groups.push(encoded);
        assert(views(groups@) =~= before.push(gv));
        assert(filters@.subrange(0, i + 1) =~= filters@.subrange(0, i as int).push(
            filters@[i as int],
        ));
        assert(views(groups@) =~= filters@.subrange(0, i + 1).map_values(
            |e: (Seq<char>, Seq<char>)| url_encoded(group_text(e.0, e.1)),
        ));
        i += 1;
    }
    assert(filters@.subrange(0, n as int) =~= filters@);
    let expression = join_strings(&groups, " ");
    proof {
        reveal_strlit(" ");
        assert(" "@ =~= seq![' ']);
    }
    builder.append(expression.as_str());
}

/// Attaching one more parameter appends its separator and the parameter.
proof fn lemma_attach_push(url: Seq<char>, params: Seq<Seq<char>>, p: Seq<char>)
    ensures
        attach_params(url, params.push(p)) == attach_params(url, params) + seq![
            separator(url, params.len() as int),
        ] + p,
{
    assert(params.push(p).drop_last() =~= params);
}

/// The state every query builder exposes, and the renderer that turns it into
/// a request URL.
pub trait QueryBuilder: Sized + View<V = QueryModel> {
    /// A builder with nothing set.
    fn new() -> (r: Self)
        ensures
            r@ == QueryModel::empty(),
    ;

    /// The page the results start at, if set.
    fn page(&self) -> (r: Option<u32>)
        ensures
            r == self@.page,
    ;

    /// The number of results per page, if set.
    fn page_size(&self) -> (r: Option<u8>)
        ensures
            r == self@.page_size,
    ;

    /// The filters set so far.
    fn filters(&self) -> (r: &FilterMap)
        ensures
            r@ == self@.filters,
    ;

    /// The ordering entries, in the order they were added.
    fn order_by(&self) -> (r: &Vec<Ordering>)
        ensures
            r@ == self@.order_by,
    ;

    /// The fields to select, in the order they were added.
    fn select_fields(&self) -> (r: &Vec<String>)
        ensures
            views(r@) == self@.select_fields,
    ;

    /// Appends the builder's query parameters to `url`: page size, page, field
    /// selection and filters, in that order, each introduced by `?` when it is
    /// the first of a URL without a query part and by `&` otherwise. A builder
    /// with an ordering is refused.
    #[verifier::rlimit(40)]
    fn build(&self, url: &str) -> (r: Result<String, QueryError>)
        ensures
            r is Err <==> self@.order_by.len() > 0,
            r matches Ok(s) ==> s@ == rendered(self@, url@),
            r matches Err(e) ==> e == QueryError::OrderingNotSupported,
    {
        let mut query_index = has_query_part(url);
        let mut builder = url.to_owned();
        let ghost mut params: Seq<Seq<char>> = seq![];
        let ghost m = self@;
        let ghost u = url@;
        if let Some(page_size) = self.page_size() {
            let value = decimal_string(page_size as u32);
            let ghost p = param("pageSize"@, decimal(page_size as nat));
            build_query_param(&mut builder, &mut query_index, "pageSize", value.as_str());
            proof {
                lemma_attach_push(u, params, p);
                params = params.push(p);
            }
        }
        assert(builder@ == attach_params(u, params));
        assert(query_index == (params.len() > 0 || has_query(u)));
        if let Some(page) = self.page() {
            let value = decimal_string(page);
            let ghost p = param("page"@, decimal(page as nat));
            build_query_param(&mut builder, &mut query_index, "page", value.as_str());
            proof {
                lemma_attach_push(u, params, p);
                params = params.push(p);
            }
        }
        if self.order_by().len() > 0 {
            return Err(QueryError::OrderingNotSupported);
        }
        assert(builder@ == attach_params(u, params));
        assert(query_index == (params.len() > 0 || has_query(u)));
        let fields = self.select_fields();
        if fields.len() > 0 {
            let value = select_list(fields);
            let ghost p = param("select"@, select_value(m.select_fields));
            build_query_param(&mut builder, &mut query_index, "select", value.as_str());
            proof {
                lemma_attach_push(u, params, p);
                params = params.push(p);
            }
        }
        assert(builder@ == attach_params(u, params));
        assert(query_index == (params.len() > 0 || has_query(u)));
        let filters = self.filters();
        if !filters.is_empty() {
            let ghost p = filter_param(m.filters);
            if query_index {
                builder.append("&");
                proof {
                    reveal_strlit("&");
                }
            } else {
                builder.append("?");
                proof {
                    reveal_strlit("?");
                }
            }
            let key = encode("q");
            builder.append(key.as_str());
            builder.append("=");
            proof {
                reveal_strlit("=");
                reveal_strlit("q");
                assert("q"@ =~= seq!['q']);
            }
            build_filter_query(&mut builder, filters);
            proof {
                lemma_attach_push(u, params, p);
                params = params.push(p);
            }
        }
        assert(builder@ == attach_params(u, params));
        assert(params =~= query_params(m));
        Ok(builder)
    }
}

} // verus!
