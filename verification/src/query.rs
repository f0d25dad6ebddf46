//! Query-string handling: splitting `k=v` pairs out of a query string,
//! collapsing duplicate keys so that the last value wins, and rendering
//! the surviving entries as text.

use vstd::prelude::*;
use vstd::string::StrSliceExecFns;
use vstd::string::StringExecFns;
use crate::escape::{query_unescaped_text, unescape_query_text};
use crate::text::{find_char, first_index_of, lemma_first_index_of, str_eq};

verus! {

/// The views of a sequence of strings.
pub open spec fn str_views(v: Seq<String>) -> Seq<Seq<char>> {
    v.map_values(|s: String| s@)
}

/// The views of a sequence of string pairs.
pub open spec fn pair_views(v: Seq<(String, String)>) -> Seq<(Seq<char>, Seq<char>)> {
    v.map_values(|p: (String, String)| (p.0@, p.1@))
}

/// `s` split on the separator `sep`; a string without the separator is a
/// single part, and every separator opens a new (possibly empty) part.
pub open spec fn split_on(s: Seq<char>, sep: char) -> Seq<Seq<char>>
    decreases s.len(),
{
    let i = first_index_of(s, sep) as int;
    if i >= s.len() {
        seq![s]
    } else {
        seq![s.subrange(0, i)] + split_on(s.subrange(i + 1, s.len() as int), sep)
    }
}

/// A `k=v` part as a pair: the key is everything before the first `'='`,
/// the value everything after it (empty when there is no `'='`), each
/// percent-decoded in query flavour.
pub open spec fn pair_of(part: Seq<char>) -> (Seq<char>, Seq<char>) {
    let i = first_index_of(part, '=') as int;
    if i >= part.len() {
        (query_unescaped_text(part), Seq::empty())
    } else {
        (
            query_unescaped_text(part.subrange(0, i)),
            query_unescaped_text(part.subrange(i + 1, part.len() as int)),
        )
    }
}

/// The pairs of a sequence of parts, with empty parts dropped.
pub open spec fn pairs_of(parts: Seq<Seq<char>>) -> Seq<(Seq<char>, Seq<char>)>
    decreases parts.len(),
{
    if parts.len() == 0 {
        Seq::empty()
    } else {
        let rest = pairs_of(parts.drop_first());
        if parts[0].len() == 0 {
            rest
        } else {
            seq![pair_of(parts[0])] + rest
        }
    }
}

/// Whether some pair in `ps` has the key `k`.
pub open spec fn has_key(ps: Seq<(Seq<char>, Seq<char>)>, k: Seq<char>) -> bool
    decreases ps.len(),
{
    if ps.len() == 0 {
        false
    } else {
        ps[0].0 == k || has_key(ps.drop_first(), k)
    }
}

/// `ps` with duplicate keys collapsed: of several pairs with one key, only
/// the last survives, in its place; the last value wins.
pub open spec fn collapse(ps: Seq<(Seq<char>, Seq<char>)>) -> Seq<(Seq<char>, Seq<char>)>
    decreases ps.len(),
{
    if ps.len() == 0 {
        Seq::empty()
    } else if has_key(ps.drop_first(), ps[0].0) {
        collapse(ps.drop_first())
    } else {
        seq![ps[0]] + collapse(ps.drop_first())
    }
}

/// The value of the last pair in `ps` whose key is `k`.
pub open spec fn last_value(ps: Seq<(Seq<char>, Seq<char>)>, k: Seq<char>) -> Seq<char>
    decreases ps.len(),
{
    if ps.len() == 0 {
        Seq::empty()
    } else if has_key(ps.drop_first(), k) {
        last_value(ps.drop_first(), k)
    } else if ps[0].0 == k {
        ps[0].1
    } else {
        last_value(ps.drop_first(), k)
    }
}

/// Collapsing keeps exactly the keys of `ps`, each exactly once, and maps
/// each to the value of its last occurrence: the last value wins.
pub proof fn lemma_collapse_last_value_wins(ps: Seq<(Seq<char>, Seq<char>)>, k: Seq<char>)
    ensures
        has_key(collapse(ps), k) == has_key(ps, k),
        has_key(ps, k) ==> last_value(collapse(ps), k) == last_value(ps, k),
        forall|i: int, j: int|
            0 <= i < j < collapse(ps).len() ==> collapse(ps)[i].0 != collapse(ps)[j].0,
    decreases ps.len(),
{
    if ps.len() != 0 {
        let rest = ps.drop_first();
        lemma_collapse_last_value_wins(rest, k);
        lemma_collapse_last_value_wins(rest, ps[0].0);
        if !has_key(rest, ps[0].0) {
            let c = seq![ps[0]] + collapse(rest);
            assert(c.drop_first() =~= collapse(rest));
            assert forall|i: int, j: int| 0 <= i < j < c.len() implies c[i].0 != c[j].0 by {
                if i == 0 {
                    lemma_has_key_index(collapse(rest), j - 1);
                }
            }
            if ps[0].0 != k {
                assert(has_key(c, k) == has_key(collapse(rest), k));
            }
        }
    }
}

/// Collapsing keeps, for every key of `ps`, an entry carrying the value of
/// that key's last occurrence.
pub proof fn lemma_collapse_entry(ps: Seq<(Seq<char>, Seq<char>)>, k: Seq<char>)
    requires
        has_key(ps, k),
    ensures
        exists|i: int|
            0 <= i < collapse(ps).len() && collapse(ps)[i] == (k, last_value(ps, k)),
    decreases ps.len(),
{
    let rest = ps.drop_first();
    if has_key(rest, ps[0].0) {
        lemma_collapse_entry(rest, k);
        let i = choose|i: int|
            0 <= i < collapse(rest).len() && collapse(rest)[i] == (k, last_value(rest, k));
        assert(0 <= i < collapse(ps).len() && collapse(ps)[i] == (k, last_value(ps, k)));
    } else if ps[0].0 == k {
        assert(0 <= 0 < collapse(ps).len() && collapse(ps)[0] == (k, last_value(ps, k)));
    } else {
        lemma_collapse_entry(rest, k);
        let i = choose|i: int|
            0 <= i < collapse(rest).len() && collapse(rest)[i] == (k, last_value(rest, k));
        assert(collapse(ps)[i + 1] == collapse(rest)[i]);
        assert(0 <= i + 1 < collapse(ps).len() && collapse(ps)[i + 1] == (k, last_value(ps, k)));
    }
}

/// Every entry's rendering stands somewhere in the rendered entries.
pub proof fn lemma_entries_text_contains(es: Seq<(Seq<char>, Seq<char>)>, i: int)
    requires
        0 <= i < es.len(),
    ensures
        exists|a: int|
            0 <= a && a + entry_text(es[i]).len() <= entries_text(es).len()
                && #[trigger] entries_text(es).subrange(a, a + entry_text(es[i]).len() as int)
                == entry_text(es[i]),
    decreases es.len(),
{
    let e = entry_text(es[i]);
    if i == 0 {
        let a: int = 0;
        assert(entries_text(es).subrange(a, a + e.len() as int) =~= e);
    } else {
        lemma_entries_text_contains(es.drop_first(), i - 1);
        assert(es.drop_first()[i - 1] == es[i]);
        let a0 = choose|a: int|
            0 <= a && a + e.len() <= entries_text(es.drop_first()).len()
                && #[trigger] entries_text(es.drop_first()).subrange(a, a + e.len() as int) == e;
        let shift = entry_text(es[0]).len() + ", "@.len();
        let a = a0 + shift;
        assert(entries_text(es).subrange(a, a + e.len() as int) =~= e);
    }
}

/// A key found at an index is a key of the sequence.
pub proof fn lemma_has_key_index(ps: Seq<(Seq<char>, Seq<char>)>, i: int)
    requires
        0 <= i < ps.len(),
    ensures
        has_key(ps, ps[i].0),
    decreases ps.len(),
{
    if i > 0 {
        lemma_has_key_index(ps.drop_first(), i - 1);
        assert(ps.drop_first()[i - 1] == ps[i]);
    }
}

/// The entries a query string denotes: its parts' pairs, duplicates
/// collapsed so that the last value wins.
pub open spec fn query_entries(qs: Seq<char>) -> Seq<(Seq<char>, Seq<char>)> {
    collapse(pairs_of(split_on(qs, '&')))
}

/// One rendered entry: `"key": "value"`.
pub open spec fn entry_text(kv: (Seq<char>, Seq<char>)) -> Seq<char> {
    "\""@ + kv.0 + "\": \""@ + kv.1 + "\""@
}

/// The rendered entries, separated by `", "`.
pub open spec fn entries_text(es: Seq<(Seq<char>, Seq<char>)>) -> Seq<char>
    decreases es.len(),
{
    if es.len() == 0 {
        Seq::empty()
    } else if es.len() == 1 {
        entry_text(es[0])
    } else {
        entry_text(es[0]) + ", "@ + entries_text(es.drop_first())
    }
}

/// Splits `s` on `sep`, as `split_on` describes.
pub fn split_str(s: &str, sep: char) -> (parts: Vec<String>)
    ensures
        str_views(parts@) == split_on(s@, sep),
    decreases s@.len(),
{
    let n = s.unicode_len();
    let q = find_char(s, sep);
    proof {
        lemma_first_index_of(s@, sep);
    }
    if q == n {
        let mut parts: Vec<String> = Vec::new();
        parts.push(String::from_str(s));
        proof {
            assert(str_views(parts@) =~~= split_on(s@, sep));
        }
        parts
    } else {
        let head = s.substring_char(0, q);
        let tail = s.substring_char(q + 1, n);
        let mut parts = split_str(tail, sep);
        parts.insert(0, String::from_str(head));
        proof {
            assert(str_views(parts@) =~~= split_on(s@, sep));
        }
        parts
    }
}

/// Splits one part at its first `'='`, as `pair_of` describes.
fn split_pair(part: &String) -> (kv: (String, String))
    ensures
        kv.0@ == pair_of(part@).0,
        kv.1@ == pair_of(part@).1,
{
    let s = part.as_str();
    let n = s.unicode_len();
    let q = find_char(s, '=');
    proof {
        lemma_first_index_of(s@, '=');
    }
    if q == n {
        (unescape_query_text(s), String::new())
    } else {
        (unescape_query_text(s.substring_char(0, q)), unescape_query_text(s.substring_char(q + 1, n)))
    }
}

/// The pairs of `parts[i..]`, as `pairs_of` describes.
fn pairs_from(parts: &Vec<String>, i: usize) -> (ps: Vec<(String, String)>)
    requires
        i <= parts.len(),
    ensures
        pair_views(ps@) == pairs_of(str_views(parts@).skip(i as int)),
    decreases parts.len() - i,
{
    if i == parts.len() {
        let ps: Vec<(String, String)> = Vec::new();
        proof {
            assert(pair_views(ps@) =~~= pairs_of(str_views(parts@).skip(i as int)));
        }
        ps
    } else {
        let mut ps = pairs_from(parts, i + 1);
        proof {
            assert(str_views(parts@).skip(i as int).drop_first() =~~= str_views(parts@).skip(
                i + 1,
            ));
        }
        let p = &parts[i];
        if p.as_str().unicode_len() > 0 {
            let kv = split_pair(p);
            ps.insert(0, kv);
        }
        proof {
            assert(pair_views(ps@) =~~= pairs_of(str_views(parts@).skip(i as int)));
        }
        ps
    }
}

/// Whether a pair at or after index `j` has the key `k`.
fn has_key_from(ps: &Vec<(String, String)>, j: usize, k: &String) -> (r: bool)
    requires
        j <= ps.len(),
    ensures
        r == has_key(pair_views(ps@).skip(j as int), k@),
    decreases ps.len() - j,
{
    if j == ps.len() {
        false
    } else if str_eq(ps[j].0.as_str(), k.as_str()) {
        true
    } else {
        proof {
            assert(pair_views(ps@).skip(j as int).drop_first() =~~= pair_views(ps@).skip(j + 1));
        }
        has_key_from(ps, j + 1, k)
    }
}

/// Collapses `ps[i..]`, as `collapse` describes.
fn collapse_from(ps: &Vec<(String, String)>, i: usize) -> (es: Vec<(String, String)>)
    requires
        i <= ps.len(),
    ensures
        pair_views(es@) == collapse(pair_views(ps@).skip(i as int)),
    decreases ps.len() - i,
{
    if i == ps.len() {
        let es: Vec<(String, String)> = Vec::new();
        proof {
            assert(pair_views(es@) =~~= collapse(pair_views(ps@).skip(i as int)));
        }
        es
    } else {
        proof {
            assert(pair_views(ps@).skip(i as int).drop_first() =~~= pair_views(ps@).skip(i + 1));
        }
        let later = has_key_from(ps, i + 1, &ps[i].0);
        let mut es = collapse_from(ps, i + 1);
        if !later {
            let kv = (ps[i].0.clone(), ps[i].1.clone());
            es.insert(0, kv);
        }
        proof {
            assert(pair_views(es@) =~~= collapse(pair_views(ps@).skip(i as int)));
        }
        es
    }
}

/// Renders `es[i..]`, as `entries_text` describes.
fn entries_string_from(es: &Vec<(String, String)>, i: usize) -> (r: String)
    requires
        i <= es.len(),
    ensures
        r@ == entries_text(pair_views(es@).skip(i as int)),
    decreases es.len() - i,
{
    if i == es.len() {
        proof {
            assert(Seq::<char>::empty() =~= entries_text(pair_views(es@).skip(i as int)));
        }
        String::new()
    } else {
        let mut s = String::from_str("\"");
        s.append(es[i].0.as_str());
        s.append("\": \"");
        s.append(es[i].1.as_str());
        s.append("\"");
        if i + 1 < es.len() {
            s.append(", ");
            let rest = entries_string_from(es, i + 1);
            s.append(rest.as_str());
        }
        proof {
            assert(pair_views(es@).skip(i as int).drop_first() =~~= pair_views(es@).skip(i + 1));
            assert(pair_views(es@).skip(i as int)[0] == pair_views(es@)[i as int]);
            assert(s@ =~= entries_text(pair_views(es@).skip(i as int)));
        }
        s
    }
}

/// Parses a query string into its entries, last value winning.
pub fn parse_query(query: &str) -> (es: Vec<(String, String)>)
    ensures
        pair_views(es@) == query_entries(query@),
{
    let parts = split_str(query, '&');
    let pairs = pairs_from(&parts, 0);
    proof {
        assert(str_views(parts@).skip(0) =~~= str_views(parts@));
        assert(pair_views(pairs@).skip(0) =~~= pair_views(pairs@));
    }
    collapse_from(&pairs, 0)
}

/// Renders the entries of a query string, in braces.
pub fn query_text(query: &str) -> (r: String)
    ensures
        r@ == "{"@ + entries_text(query_entries(query@)) + "}"@,
{
    let es = parse_query(query);
    let mut s = String::from_str("{");
    proof {
        assert(pair_views(es@).skip(0) =~~= pair_views(es@));
    }
    let body = entries_string_from(&es, 0);
    s.append(body.as_str());
    s.append("}");
    s
}

} // verus!
