//! Properties of query rendering, stated over the builders' model and proved.
use vstd::prelude::*;

use crate::builder::{
    attach_params, has_query, param, query_params, rendered, separator, QueryBuilder, QueryError,
    QueryModel,
};
use crate::builder::{filter_expression, group_text, term_fragment};
use crate::builder::filter_param;
use crate::encoding::{
    decimal, is_encoded_char, is_plain, lemma_decimal_plain, lemma_plain_unchanged,
    lemma_url_encoded_chars, url_encoded,
};
use crate::filter::{distinct_keys, has_key, upserted, FilterEntries};
use crate::text::{
    has_whitespace, join, lemma_comma_terminated_join, lemma_join_concat, lemma_join_ends_with_last,
    lemma_split_commas_concat, lemma_split_commas_nonempty, lemma_split_commas_single,
    select_value, split_commas, trim_trailing_commas, count_char, lemma_join_lacks,
    lemma_join_separator_count,
};

verus! {

/// Appending more parameters keeps what was rendered before as a prefix.
pub proof fn lemma_attach_prefix(url: Seq<char>, ps: Seq<Seq<char>>, qs: Seq<Seq<char>>)
    ensures
        attach_params(url, ps).is_prefix_of(attach_params(url, ps + qs)),
    decreases qs.len(),
{
    if qs.len() == 0 {
        assert(ps + qs =~= ps);
    } else {
        let q0 = qs.drop_last();
        lemma_attach_prefix(url, ps, q0);
        assert((ps + qs).drop_last() =~= ps + q0);
    }
}

/// A builder with no filters, no ordering, no selected fields and no
/// pagination renders the base URL unchanged.
pub proof fn lemma_empty_query_keeps_url(m: QueryModel, url: Seq<char>)
    requires
        m.filters.len() == 0,
        m.order_by.len() == 0,
        m.select_fields.len() == 0,
        m.page is None,
        m.page_size is None,
    ensures
        rendered(m, url) == url,
{
    assert(query_params(m) =~= Seq::<Seq<char>>::empty());
}

/// The pagination parameters as plain text, in rendering order: `pageSize=n`
/// when a page size is set, then `page=p` when a page is set.
pub open spec fn pagination_text(m: QueryModel) -> Seq<Seq<char>> {
    (if m.page_size is Some {
        seq!["pageSize"@ + seq!['='] + decimal(m.page_size->0 as nat)]
    } else {
        seq![]
    }) + (if m.page is Some {
        seq!["page"@ + seq!['='] + decimal(m.page->0 as nat)]
    } else {
        seq![]
    })
}

/// Parameter names and decimal values pass through percent-encoding unchanged.
proof fn lemma_plain_param(key: Seq<char>, value: Seq<char>)
    requires
        is_plain(key),
        is_plain(value),
    ensures
        param(key, value) == key + seq!['='] + value,
{
    lemma_plain_unchanged(key);
    lemma_plain_unchanged(value);
}

/// One parameter follows the URL after the first separator.
proof fn lemma_attach_one(url: Seq<char>, ps: Seq<Seq<char>>)
    requires
        ps.len() == 1,
    ensures
        attach_params(url, ps) == url + seq![separator(url, 0)] + ps[0],
{
    assert(ps.drop_last() =~= Seq::<Seq<char>>::empty());
    assert(attach_params(url, Seq::<Seq<char>>::empty()) == url);
    assert(ps.last() == ps[0]);
    assert(attach_params(url, ps) == attach_params(url, ps.drop_last()) + seq![separator(url, 0)]
        + ps.last());
}

/// The parameter names the renderer writes are unreserved ASCII.
proof fn lemma_names_plain()
    ensures
        is_plain("pageSize"@),
        is_plain("page"@),
        is_plain("select"@),
{
    reveal_strlit("pageSize");
    reveal_strlit("page");
    reveal_strlit("select");
}

/// Pagination comes first, as plain text: `pageSize` before `page` whatever
/// order they were set in, the first parameter introduced by `?` (or by `&`
/// when the URL has a query part already) and the second by `&`. With nothing
/// but pagination set, that is the whole result.
pub proof fn lemma_pagination_first(m: QueryModel, url: Seq<char>)
    ensures
        attach_params(url, pagination_text(m)).is_prefix_of(rendered(m, url)),
        m.select_fields.len() == 0 && m.filters.len() == 0 ==> rendered(m, url) == attach_params(
            url,
            pagination_text(m),
        ),
        m.page_size is Some && m.page is Some ==> attach_params(url, pagination_text(m)) == url
            + seq![separator(url, 0)] + "pageSize"@ + seq!['='] + decimal(m.page_size->0 as nat)
            + seq!['&'] + "page"@ + seq!['='] + decimal(m.page->0 as nat),
{
    let ps = query_params(m);
    let pt = pagination_text(m);
    lemma_names_plain();
    if m.page_size is Some {
        lemma_decimal_plain(m.page_size->0 as nat);
        lemma_plain_param("pageSize"@, decimal(m.page_size->0 as nat));
    }
    if m.page is Some {
        lemma_decimal_plain(m.page->0 as nat);
        lemma_plain_param("page"@, decimal(m.page->0 as nat));
    }
    let rest = ps.subrange(pt.len() as int, ps.len() as int);
    assert(ps.subrange(0, pt.len() as int) =~= pt);
    assert(pt + rest =~= ps);
    lemma_attach_prefix(url, pt, rest);
    if m.select_fields.len() == 0 && m.filters.len() == 0 {
        assert(pt =~= ps);
    }
    if m.page_size is Some && m.page is Some {
        let one = pt.drop_last();
        lemma_attach_one(url, one);
        assert(one[0] == pt[0]);
        assert(attach_params(url, pt) == attach_params(url, one) + seq![separator(url, 1)] + pt[1]);
        assert(attach_params(url, pt) =~= url + seq![separator(url, 0)] + "pageSize"@ + seq!['=']
            + decimal(m.page_size->0 as nat) + seq!['&'] + "page"@ + seq!['='] + decimal(
            m.page->0 as nat,
        ));
    }
}

/// With only fields selected, the result is the URL, its separator, and the
/// plain name `select` with the percent-encoded comma join of the fields.
pub proof fn lemma_select_rendered(m: QueryModel, url: Seq<char>)
    requires
        m.page_size is None,
        m.page is None,
        m.filters.len() == 0,
        m.select_fields.len() > 0,
        m.select_fields.last().len() > 0 && m.select_fields.last().last() != ',',
    ensures
        rendered(m, url) == url + seq![separator(url, 0)] + "select"@ + seq!['='] + url_encoded(
            join(m.select_fields, seq![',']),
        ),
{
    lemma_names_plain();
    lemma_plain_unchanged("select"@);
    lemma_select_joined(m.select_fields);
    let ps = query_params(m);
    assert(ps =~= seq![param("select"@, select_value(m.select_fields))]);
    lemma_attach_one(url, ps);
    assert(url + seq![separator(url, 0)] + ps[0] =~= url + seq![separator(url, 0)] + "select"@
        + seq!['='] + url_encoded(join(m.select_fields, seq![','])));
}

/// A percent-encoded string holds no character that encoding never emits.
proof fn lemma_encoded_lacks(s: Seq<char>, c: char)
    requires
        !is_encoded_char(c),
    ensures
        !url_encoded(s).contains(c),
{
    lemma_url_encoded_chars(s);
}

/// No rendered parameter holds a `?`.
proof fn lemma_params_lack_question_mark(m: QueryModel)
    ensures
        forall|i: int| 0 <= i < query_params(m).len() ==> !(#[trigger] query_params(m)[i]).contains('?'),
{
    let ps = query_params(m);
    assert forall|k: Seq<char>, v: Seq<char>| !(#[trigger] param(k, v)).contains('?') by {
        lemma_encoded_lacks(k, '?');
        lemma_encoded_lacks(v, '?');
        let p = param(k, v);
        assert forall|i: int| 0 <= i < p.len() implies p[i] != '?' by {
            let a = url_encoded(k);
            if i < a.len() {
                assert(p[i] == a[i]);
            } else if i > a.len() {
                assert(p[i] == url_encoded(v)[i - a.len() - 1]);
            }
        }
    }
    if m.filters.len() > 0 {
        let enc = |e: (Seq<char>, Seq<char>)| url_encoded(group_text(e.0, e.1));
        let groups = m.filters.map_values(enc);
        assert forall|i: int| 0 <= i < groups.len() implies !(#[trigger] groups[i]).contains('?') by {
            lemma_encoded_lacks(group_text(m.filters[i].0, m.filters[i].1), '?');
        }
        lemma_join_lacks(groups, seq![' '], '?');
        lemma_encoded_lacks(seq!['q'], '?');
        let fp = filter_param(m.filters);
        let a = url_encoded(seq!['q']);
        let e = filter_expression(m.filters);
        assert forall|i: int| 0 <= i < fp.len() implies fp[i] != '?' by {
            if i < a.len() {
                assert(fp[i] == a[i]);
            } else if i > a.len() {
                assert(fp[i] == e[i - a.len() - 1]);
            }
        }
    }
    assert forall|i: int| 0 <= i < ps.len() implies !(#[trigger] ps[i]).contains('?') by {
        if m.filters.len() > 0 && i == ps.len() - 1 {
            assert(ps[i] == filter_param(m.filters));
        }
    }
}

/// The `&`-introduced parameters, flattened, hold no `?` when no parameter does.
proof fn lemma_flatten_lacks_question_mark(ps: Seq<Seq<char>>)
    requires
        forall|i: int| 0 <= i < ps.len() ==> !(#[trigger] ps[i]).contains('?'),
    ensures
        !ps.map_values(|p: Seq<char>| seq!['&'] + p).flatten().contains('?'),
    decreases ps.len(),
{
    let amp = |p: Seq<char>| seq!['&'] + p;
    if ps.len() == 0 {
        assert(ps.map_values(amp) =~= Seq::<Seq<char>>::empty());
    } else {
        let q = ps.drop_last();
        assert forall|i: int| 0 <= i < q.len() implies !(#[trigger] q[i]).contains('?') by {
            assert(q[i] == ps[i]);
        }
        lemma_flatten_lacks_question_mark(q);
        assert(ps.map_values(amp) =~= q.map_values(amp).push(amp(ps.last())));
        q.map_values(amp).lemma_flatten_push(amp(ps.last()));
        let f0 = q.map_values(amp).flatten();
        let l = ps.last();
        assert(!l.contains('?')) by {
            assert(l == ps[ps.len() - 1]);
        }
        let f = f0 + amp(l);
        assert forall|i: int| 0 <= i < f.len() implies f[i] != '?' by {
            if i < f0.len() {
                assert(f[i] == f0[i]);
            } else if i > f0.len() {
                assert(f[i] == l[i - f0.len() - 1]);
            }
        }
    }
}

/// On a URL that already has a query part, the result starts with the URL and
/// nothing after it is a `?`: no second `?` is added.
pub proof fn lemma_no_second_question_mark(m: QueryModel, url: Seq<char>)
    requires
        has_query(url),
    ensures
        url.is_prefix_of(rendered(m, url)),
        forall|i: int| url.len() <= i < rendered(m, url).len() ==> rendered(m, url)[i] != '?',
{
    lemma_query_part_kept(m, url);
    lemma_params_lack_question_mark(m);
    let amp = |p: Seq<char>| seq!['&'] + p;
    lemma_flatten_lacks_question_mark(query_params(m));
    let f = query_params(m).map_values(amp).flatten();
    let r = rendered(m, url);
    assert(r.subrange(0, url.len() as int) =~= url);
    assert forall|i: int| url.len() <= i < r.len() implies r[i] != '?' by {
        assert(r[i] == f[i - url.len()]);
    }
}

/// The filter expression of `n` keys holds exactly `n - 1` plain spaces, one
/// between each two key groups; spaces inside keys and terms are encoded.
pub proof fn lemma_group_separators(f: FilterEntries)
    requires
        f.len() > 0,
    ensures
        count_char(filter_expression(f), ' ') == f.len() - 1,
{
    let enc = |e: (Seq<char>, Seq<char>)| url_encoded(group_text(e.0, e.1));
    let groups = f.map_values(enc);
    assert forall|i: int| 0 <= i < groups.len() implies !(#[trigger] groups[i]).contains(' ') by {
        lemma_encoded_lacks(group_text(f[i].0, f[i].1), ' ');
    }
    lemma_join_separator_count(groups, ' ');
}

/// On a URL that already has a query part, every parameter is introduced by
/// `&`; no second `?` is added.
pub proof fn lemma_query_part_kept(m: QueryModel, url: Seq<char>)
    requires
        has_query(url),
    ensures
        rendered(m, url) == url + query_params(m).map_values(|p: Seq<char>| seq!['&'] + p).flatten(),
{
    lemma_ampersand_params(url, query_params(m));
}

proof fn lemma_ampersand_params(url: Seq<char>, ps: Seq<Seq<char>>)
    requires
        has_query(url),
    ensures
        attach_params(url, ps) == url + ps.map_values(|p: Seq<char>| seq!['&'] + p).flatten(),
    decreases ps.len(),
{
    let amp = |p: Seq<char>| seq!['&'] + p;
    if ps.len() == 0 {
        assert(ps.map_values(amp) =~= Seq::<Seq<char>>::empty());
        assert(url + Seq::<Seq<char>>::empty().flatten() =~= url);
    } else {
        let q = ps.drop_last();
        lemma_ampersand_params(url, q);
        assert(ps.map_values(amp) =~= q.map_values(amp).push(amp(ps.last())));
        q.map_values(amp).lemma_flatten_push(amp(ps.last()));
        assert(url + q.map_values(amp).flatten() + seq!['&'] + ps.last() =~= url + (
        q.map_values(amp).flatten() + amp(ps.last())));
    }
}

/// Rendering only reads the builder: two builds of the same builder on the
/// same URL give the same result.
pub proof fn lemma_build_repeatable<B: QueryBuilder>(
    b: &B,
    url: &str,
    r1: Result<String, QueryError>,
    r2: Result<String, QueryError>,
)
    requires
        call_ensures(B::build, (b, url), r1),
        call_ensures(B::build, (b, url), r2),
    ensures
        r1 is Ok <==> r2 is Ok,
        r1 is Ok ==> r1->Ok_0@ == r2->Ok_0@,
        r1 is Err ==> r1->Err_0 == r2->Err_0,
{
}

/// The selected fields render as the fields joined by commas, with no
/// trailing comma, however many fields there are; this needs the last field to
/// be non-empty and not to end in a comma itself, since trailing commas are
/// trimmed.
pub proof fn lemma_select_joined(fields: Seq<Seq<char>>)
    requires
        fields.len() > 0 ==> fields.last().len() > 0 && fields.last().last() != ',',
    ensures
        select_value(fields) == join(fields, seq![',']),
{
    if fields.len() > 0 {
        let j = join(fields, seq![',']);
        lemma_comma_terminated_join(fields);
        assert((j + seq![',']).drop_last() =~= j);
        lemma_join_ends_with_last(fields, seq![',']);
        assert(j.last() == fields.last().last()) by {
            let l = fields.last();
            assert(j.subrange(j.len() - l.len(), j.len() as int) == l);
            assert(j[j.len() - 1] == j.subrange(j.len() - l.len(), j.len() as int)[l.len() - 1]);
        }
        assert(trim_trailing_commas(j) == j);
    }
}

/// A key's value accumulates: adding `a` and then `b` under one key gives the
/// same filters as adding `a`, a comma and `b` at once.
pub proof fn lemma_repeated_filter_accumulates(
    f: FilterEntries,
    key: Seq<char>,
    a: Seq<char>,
    b: Seq<char>,
)
    requires
        distinct_keys(f),
    ensures
        upserted(upserted(f, key, a), key, b) == upserted(f, key, a + seq![','] + b),
{
    let f1 = upserted(f, key, a);
    if has_key(f, key) {
        let i = choose|i: int| 0 <= i < f.len() && #[trigger] f[i].0 == key;
        assert(f1[i].0 == key);
        assert(has_key(f1, key));
        let j = choose|j: int| 0 <= j < f1.len() && #[trigger] f1[j].0 == key;
        assert(j == i) by {
            if j != i {
                assert(f[j].0 == f1[j].0);
            }
        }
        assert(f[i].1 + seq![','] + a + seq![','] + b =~= f[i].1 + seq![','] + (a + seq![',']
            + b));
    } else {
        assert(f1[f.len() as int].0 == key);
        assert(has_key(f1, key));
        let j = choose|j: int| 0 <= j < f1.len() && #[trigger] f1[j].0 == key;
        assert(j == f.len()) by {
            if j < f.len() {
                assert(f[j].0 == key);
            }
        }
        assert(f1.update(j, (key, a + seq![','] + b)) =~= f.push((key, a + seq![','] + b)));
    }
}

/// Terms accumulated under one key render as an OR-group: the fragments of the
/// earlier terms, ` or `, and the fragments of the later ones.
pub proof fn lemma_or_group(key: Seq<char>, a: Seq<char>, b: Seq<char>)
    ensures
        group_text(key, a + seq![','] + b) == group_text(key, a) + seq![' ', 'o', 'r', ' ']
            + group_text(key, b),
{
    let frag = |t: Seq<char>| term_fragment(key, t);
    lemma_split_commas_concat(a, b);
    lemma_split_commas_nonempty(a);
    lemma_split_commas_nonempty(b);
    let xs = split_commas(a).map_values(frag);
    let ys = split_commas(b).map_values(frag);
    assert((split_commas(a) + split_commas(b)).map_values(frag) =~= xs + ys);
    lemma_join_concat(xs, ys, seq![' ', 'o', 'r', ' ']);
}

/// A term holding whitespace (and no comma) is quoted as one phrase: the group
/// is the key, a colon, and the term in double quotes.
pub proof fn lemma_whitespace_term_quoted(key: Seq<char>, term: Seq<char>)
    requires
        has_whitespace(term),
        !term.contains(','),
    ensures
        group_text(key, term) == key + seq![':', '"'] + term + seq!['"'],
{
    lemma_split_commas_single(term);
    let frag = |t: Seq<char>| term_fragment(key, t);
    assert(seq![term].map_values(frag) =~= seq![term_fragment(key, term)]);
    assert(key + seq![':'] + (seq!['"'] + term + seq!['"']) =~= key + seq![':', '"'] + term
        + seq!['"']);
}

/// Different filter keys are ANDed: the group of a further key follows the
/// earlier groups after a plain space.
pub proof fn lemma_keys_and_joined(f: FilterEntries, key: Seq<char>, value: Seq<char>)
    requires
        f.len() > 0,
    ensures
        filter_expression(f.push((key, value))) == filter_expression(f) + seq![' '] + url_encoded(
            group_text(key, value),
        ),
{
    let enc = |e: (Seq<char>, Seq<char>)| url_encoded(group_text(e.0, e.1));
    let g = f.push((key, value)).map_values(enc);
    assert(g.drop_last() =~= f.map_values(enc));
}

} // verus!
