//! Character-level helpers on strings: whitespace, quoting, splitting, joining.
use vstd::prelude::*;
use vstd::std_specs::iter::IteratorSpec;
use vstd::string::*;

verus! {

broadcast use vstd::string::group_string_axioms;

/// The characters of a string, in order.
pub(crate) fn chars_of(s: &str) -> (r: Vec<char>)
    ensures
        r@ == s@,
{
    let mut it = s.chars();
    let mut out: Vec<char> = Vec::new();
    loop
        invariant
            out@ + it.remaining() == s@,
            it.obeys_prophetic_iter_laws(),
        ensures
            out@ == s@,
        decreases s@.len() - out@.len(),
    {
        match it.next() {
            Some(c) => {
                out.push(c);
            },
            None => {
                assert(out@ + it.remaining() =~= out@);
                break;
            },
        }
    }
    out
}

/// The contents of each string of a sequence.
pub open spec fn views(v: Seq<String>) -> Seq<Seq<char>> {
    v.map_values(|s: String| s@)
}

/// Characters with the Unicode `White_Space` property.
pub open spec fn is_whitespace(c: char) -> bool {
    let v = c as u32;
    (0x9 <= v <= 0xd) || v == 0x20 || v == 0x85 || v == 0xa0 || v == 0x1680 || (0x2000 <= v
        <= 0x200a) || v == 0x2028 || v == 0x2029 || v == 0x202f || v == 0x205f || v == 0x3000
}

/// Whether a string holds at least one whitespace character.
pub open spec fn has_whitespace(s: Seq<char>) -> bool {
    exists|i: int| 0 <= i < s.len() && is_whitespace(#[trigger] s[i])
}

/// A term as the query language reads it: wrapped in double quotes when it holds
/// whitespace, so that it stays one phrase.
pub open spec fn quoted(s: Seq<char>) -> Seq<char> {
    if has_whitespace(s) {
        seq!['"'] + s + seq!['"']
    } else {
        s
    }
}

/// Whether `c` has the Unicode `White_Space` property.
fn is_whitespace_char(c: char) -> (r: bool)
    ensures
        r == is_whitespace(c),
{
    let v = c as u32;
    (0x9 <= v && v <= 0xd) || v == 0x20 || v == 0x85 || v == 0xa0 || v == 0x1680 || (0x2000 <= v
        && v <= 0x200a) || v == 0x2028 || v == 0x2029 || v == 0x202f || v == 0x205f || v == 0x3000
}

/// Wraps `value` in double quotes when it holds a whitespace character.
pub fn enclose_whitespace_strings(value: &str) -> (r: String)
    ensures
        r@ == quoted(value@),
{
    let cs = chars_of(value);
    let mut found = false;
    let mut i: usize = 0;
    while i < cs.len()
        invariant
            i <= cs.len(),
            cs@ == value@,
            found == exists|j: int| 0 <= j < i && is_whitespace(#[trigger] value@[j]),
        decreases cs.len() - i,
    {
        if is_whitespace_char(cs[i]) {
            found = true;
        }
        i += 1;
    }
    if found {
        let mut r = "\"".to_owned();
        r.append(value);
        r.append("\"");
        proof {
            reveal_strlit("\"");
        }
        r
    } else {
        value.to_owned()
    }
}

/// The comma-separated pieces of a string, empty pieces included; a string
/// without a comma is one piece.
pub open spec fn split_commas(s: Seq<char>) -> Seq<Seq<char>>
    decreases s.len(),
{
    if s.len() == 0 {
        seq![seq![]]
    } else {
        let prev = split_commas(s.drop_last());
        if s.last() == ',' {
            prev.push(seq![])
        } else {
            prev.update(prev.len() - 1, prev.last().push(s.last()))
        }
    }
}

/// Splitting always gives at least one piece.
pub proof fn lemma_split_commas_nonempty(s: Seq<char>)
    ensures
        split_commas(s).len() >= 1,
    decreases s.len(),
{
    if s.len() > 0 {
        lemma_split_commas_nonempty(s.drop_last());
    }
}

/// Splits `value` at each comma.
pub(crate) fn split_terms(value: &str) -> (r: Vec<String>)
    ensures
        views(r@) == split_commas(value@),
{
    let cs = chars_of(value);
    let mut pieces: Vec<String> = Vec::new();
    let mut start: usize = 0;
    let mut i: usize = 0;
    assert(value@.subrange(0, 0) =~= Seq::<char>::empty());
    assert(views(pieces@).push(value@.subrange(0, 0)) =~= seq![Seq::<char>::empty()]);
    while i < cs.len()
        invariant
            cs@ == value@,
            start <= i <= cs.len(),
            split_commas(value@.subrange(0, i as int)) == views(pieces@).push(
                value@.subrange(start as int, i as int),
            ),
        decreases cs.len() - i,
    {
        let ghost before = value@.subrange(0, i as int);
        let ghost cur = value@.subrange(start as int, i as int);
        proof {
            lemma_split_commas_nonempty(before);
            assert(value@.subrange(0, i + 1).drop_last() =~= before);
        }
        if cs[i] == ',' {
            let ghost prev = views(pieces@);
            let piece = value.substring_char(start, i).to_owned();
            pieces.push(piece);
            start = i + 1;
            proof {
                assert(views(pieces@) =~= prev.push(cur));
                assert(value@.subrange(start as int, i + 1) =~= Seq::<char>::empty());
            }
        } else {
            proof {
                assert(value@.subrange(start as int, i + 1) =~= cur.push(value@[i as int]));
            }
        }
        i += 1;
    }
    assert(value@.subrange(0, cs.len() as int) =~= value@);
    let ghost prev = views(pieces@);
    let last = value.substring_char(start, cs.len()).to_owned();
    pieces.push(last);
    assert(views(pieces@) =~= prev.push(value@.subrange(start as int, cs.len() as int)));
    pieces
}

/// The parts in order, with `sep` between each two neighbours.
pub open spec fn join(parts: Seq<Seq<char>>, sep: Seq<char>) -> Seq<char>
    decreases parts.len(),
{
    if parts.len() == 0 {
        seq![]
    } else if parts.len() == 1 {
        parts[0]
    } else {
        join(parts.drop_last(), sep) + sep + parts.last()
    }
}

/// Joins `parts` with `sep` between each two neighbours.
pub(crate) fn join_strings(parts: &Vec<String>, sep: &str) -> (r: String)
    ensures
        r@ == join(views(parts@), sep@),
{
    let mut acc = String::new();
    let mut i: usize = 0;
    while i < parts.len()
        invariant
            i <= parts.len(),
            acc@ == join(views(parts@).subrange(0, i as int), sep@),
        decreases parts.len() - i,
    {
        let ghost done = views(parts@).subrange(0, i as int);
        let ghost next = views(parts@).subrange(0, i + 1);
        assert(next.drop_last() =~= done);
        if i > 0 {
            acc.append(sep);
        } else {
            assert(acc@ =~= Seq::<char>::empty());
        }
        acc.append(parts[i].as_str());
        i += 1;
    }
    assert(views(parts@).subrange(0, parts.len() as int) =~= views(parts@));
    acc
}

/// Each field followed by a comma, all in order.
pub open spec fn comma_terminated(fields: Seq<Seq<char>>) -> Seq<char>
    decreases fields.len(),
{
    if fields.len() == 0 {
        seq![]
    } else {
        comma_terminated(fields.drop_last()) + fields.last() + seq![',']
    }
}

/// A string without the run of commas at its end.
pub open spec fn trim_trailing_commas(s: Seq<char>) -> Seq<char>
    decreases s.len(),
{
    if s.len() > 0 && s.last() == ',' {
        trim_trailing_commas(s.drop_last())
    } else {
        s
    }
}

/// The value of the field selection: the fields joined by commas, with the
/// trailing commas removed.
pub open spec fn select_value(fields: Seq<Seq<char>>) -> Seq<char> {
    trim_trailing_commas(comma_terminated(fields))
}

/// Renders the field selection as one comma-separated value.
pub(crate) fn select_list(fields: &Vec<String>) -> (r: String)
    ensures
        r@ == select_value(views(fields@)),
{
    let mut joined = String::new();
    let mut i: usize = 0;
    while i < fields.len()
        invariant
            i <= fields.len(),
            joined@ == comma_terminated(views(fields@).subrange(0, i as int)),
        decreases fields.len() - i,
    {
        assert(views(fields@).subrange(0, i + 1).drop_last() =~= views(fields@).subrange(
            0,
            i as int,
        ));
        assert(views(fields@).subrange(0, i + 1).last() == fields@[i as int]@);
        joined.append(fields[i].as_str());
        joined.append(",");
        proof {
            reveal_strlit(",");
        }
        i += 1;
    }
    assert(views(fields@).subrange(0, fields.len() as int) =~= views(fields@));
    let cs = chars_of(joined.as_str());
    let mut end: usize = cs.len();
    assert(joined@.subrange(0, end as int) =~= joined@);
    while end > 0 && cs[end - 1] == ','
        invariant
            end <= cs.len(),
            cs@ == joined@,
            trim_trailing_commas(joined@) == trim_trailing_commas(joined@.subrange(0, end as int)),
        decreases end,
    {
        assert(joined@.subrange(0, end as int).drop_last() =~= joined@.subrange(0, end - 1));
        end -= 1;
    }
    assert(trim_trailing_commas(joined@.subrange(0, end as int)) == joined@.subrange(0, end as int));
    joined.as_str().substring_char(0, end).to_owned()
}

/// Splitting at a comma splits each side on its own.
pub proof fn lemma_split_commas_concat(a: Seq<char>, b: Seq<char>)
    ensures
        split_commas(a + seq![','] + b) == split_commas(a) + split_commas(b),
    decreases b.len(),
{
    let s = a + seq![','] + b;
    if b.len() == 0 {
        assert(s.drop_last() =~= a);
        assert(split_commas(a).push(seq![]) =~= split_commas(a) + split_commas(b));
    } else {
        let b0 = b.drop_last();
        lemma_split_commas_concat(a, b0);
        lemma_split_commas_nonempty(b0);
        assert(s.drop_last() =~= a + seq![','] + b0);
        let prev_a = split_commas(a);
        let prev_b = split_commas(b0);
        if b.last() == ',' {
            assert((prev_a + prev_b).push(seq![]) =~= prev_a + prev_b.push(seq![]));
        } else {
            let prev = prev_a + prev_b;
            assert(prev.update(prev.len() - 1, prev.last().push(b.last())) =~= prev_a
                + prev_b.update(prev_b.len() - 1, prev_b.last().push(b.last())));
        }
    }
}

/// A string without a comma is a single piece.
pub proof fn lemma_split_commas_single(s: Seq<char>)
    requires
        !s.contains(','),
    ensures
        split_commas(s) == seq![s],
    decreases s.len(),
{
    if s.len() == 0 {
        assert(s =~= Seq::<char>::empty());
    } else {
        let s0 = s.drop_last();
        assert(!s0.contains(',')) by {
            if s0.contains(',') {
                let i = choose|i: int| 0 <= i < s0.len() && s0[i] == ',';
                assert(s[i] == ',');
            }
        }
        lemma_split_commas_single(s0);
        assert(s[s.len() - 1] != ',');
        assert(s0.push(s.last()) =~= s);
        assert(seq![s0].update(0, s0.push(s.last())) =~= seq![s]);
    }
}

/// The joined string ends as its last part does.
pub proof fn lemma_join_ends_with_last(parts: Seq<Seq<char>>, sep: Seq<char>)
    requires
        parts.len() > 0,
    ensures
        parts.last().is_suffix_of(join(parts, sep)),
{
    if parts.len() > 1 {
        let j = join(parts, sep);
        let l = parts.last();
        assert(j.subrange(j.len() - l.len(), j.len() as int) =~= l);
    } else {
        assert(parts.last() == parts[0]);
    }
}

/// Joining two non-empty lists puts one separator between their joins.
pub proof fn lemma_join_concat(xs: Seq<Seq<char>>, ys: Seq<Seq<char>>, sep: Seq<char>)
    requires
        xs.len() > 0,
        ys.len() > 0,
    ensures
        join(xs + ys, sep) == join(xs, sep) + sep + join(ys, sep),
    decreases ys.len(),
{
    let zs = xs + ys;
    assert(zs.drop_last() =~= xs + ys.drop_last());
    assert(zs.last() == ys.last());
    if ys.len() == 1 {
        assert(xs + ys.drop_last() =~= xs);
        assert(join(ys, sep) == ys[0]);
    } else {
        lemma_join_concat(xs, ys.drop_last(), sep);
        assert(join(xs, sep) + sep + join(ys.drop_last(), sep) + sep + ys.last() =~= join(xs, sep)
            + sep + (join(ys.drop_last(), sep) + sep + ys.last()));
    }
}

/// The comma-terminated form is the comma-joined form and one more comma.
pub proof fn lemma_comma_terminated_join(fields: Seq<Seq<char>>)
    requires
        fields.len() > 0,
    ensures
        comma_terminated(fields) == join(fields, seq![',']) + seq![','],
    decreases fields.len(),
{
    let f0 = fields.drop_last();
    if fields.len() == 1 {
        assert(comma_terminated(f0) =~= Seq::<char>::empty());
        assert(comma_terminated(fields) =~= fields[0] + seq![',']);
    } else {
        lemma_comma_terminated_join(f0);
        assert(join(f0, seq![',']) + seq![','] + fields.last() + seq![','] =~= join(f0, seq![','])
            + seq![','] + fields.last() + seq![',']);
    }
}

/// How many times `c` occurs in `s`.
pub open spec fn count_char(s: Seq<char>, c: char) -> nat
    decreases s.len(),
{
    if s.len() == 0 {
        0
    } else {
        count_char(s.drop_last(), c) + if s.last() == c {
            1nat
        } else {
            0nat
        }
    }
}

/// Counting over a concatenation adds the counts.
pub proof fn lemma_count_char_concat(a: Seq<char>, b: Seq<char>, c: char)
    ensures
        count_char(a + b, c) == count_char(a, c) + count_char(b, c),
    decreases b.len(),
{
    if b.len() == 0 {
        assert(a + b =~= a);
    } else {
        lemma_count_char_concat(a, b.drop_last(), c);
        assert((a + b).drop_last() =~= a + b.drop_last());
    }
}

/// A string without `c` counts no `c`.
pub proof fn lemma_count_char_absent(s: Seq<char>, c: char)
    requires
        !s.contains(c),
    ensures
        count_char(s, c) == 0,
    decreases s.len(),
{
    if s.len() > 0 {
        assert(!s.drop_last().contains(c)) by {
            if s.drop_last().contains(c) {
                let i = choose|i: int| 0 <= i < s.drop_last().len() && s.drop_last()[i] == c;
                assert(s[i] == c);
            }
        }
        lemma_count_char_absent(s.drop_last(), c);
        assert(s[s.len() - 1] != c);
    }
}

/// Joining parts without `c` by a separator without `c` gives a string without `c`.
pub proof fn lemma_join_lacks(parts: Seq<Seq<char>>, sep: Seq<char>, c: char)
    requires
        forall|i: int| 0 <= i < parts.len() ==> !(#[trigger] parts[i]).contains(c),
        !sep.contains(c),
    ensures
        !join(parts, sep).contains(c),
    decreases parts.len(),
{
    if parts.len() > 1 {
        let p0 = parts.drop_last();
        assert forall|i: int| 0 <= i < p0.len() implies !(#[trigger] p0[i]).contains(c) by {
            assert(p0[i] == parts[i]);
        }
        lemma_join_lacks(p0, sep, c);
        let j0 = join(p0, sep);
        let l = parts.last();
        assert(!l.contains(c)) by {
            assert(l == parts[parts.len() - 1]);
        }
        let j = j0 + sep + l;
        assert forall|i: int| 0 <= i < j.len() implies j[i] != c by {
            if i < j0.len() {
                assert(j[i] == j0[i]);
            } else if i < j0.len() + sep.len() {
                assert(j[i] == sep[i - j0.len()]);
            } else {
                assert(j[i] == l[i - j0.len() - sep.len()]);
            }
        }
    } else if parts.len() == 1 {
        assert(parts[0] == join(parts, sep));
    }
}

/// Joining `n` parts that hold no `c` by the one-character separator `c` gives
/// exactly `n - 1` occurrences of `c`: one between each two neighbours.
pub proof fn lemma_join_separator_count(parts: Seq<Seq<char>>, c: char)
    requires
        parts.len() > 0,
        forall|i: int| 0 <= i < parts.len() ==> !(#[trigger] parts[i]).contains(c),
    ensures
        count_char(join(parts, seq![c]), c) == parts.len() - 1,
    decreases parts.len(),
{
    if parts.len() == 1 {
        lemma_count_char_absent(parts[0], c);
        assert(join(parts, seq![c]) == parts[0]);
    } else {
        let p0 = parts.drop_last();
        assert forall|i: int| 0 <= i < p0.len() implies !(#[trigger] p0[i]).contains(c) by {
            assert(p0[i] == parts[i]);
        }
        lemma_join_separator_count(p0, c);
        let l = parts.last();
        assert(!l.contains(c)) by {
            assert(l == parts[parts.len() - 1]);
        }
        lemma_count_char_absent(l, c);
        lemma_count_char_concat(join(p0, seq![c]), seq![c], c);
        lemma_count_char_concat(join(p0, seq![c]) + seq![c], l, c);
        assert(seq![c].drop_last() =~= Seq::<char>::empty());
        assert(count_char(Seq::<char>::empty(), c) == 0);
        assert(count_char(seq![c], c) == 1);
        assert(join(parts, seq![c]) == join(p0, seq![c]) + seq![c] + l);
    }
}

} // verus!
