//! The search filter: derives a filtered view of the catalog from a query
//! string by case-insensitive substring match against each package's name
//! or description.

use vstd::prelude::*;
use vstd::string::*;
use crate::package::Package;

verus! {

/// The character sequence that `str::to_lowercase` produces for `s`.
/// Left uninterpreted: Unicode case folding is a function of the input
/// characters alone, but its definition is not restated here.
pub uninterp spec fn lower_of(s: Seq<char>) -> Seq<char>;

/// Relies on `str::to_lowercase`: the result depends only on the input
/// characters (named `lower_of`), and an empty input gives an empty result.
#[verifier::external_body]
fn to_lowercase(s: &str) -> (res: String)
    ensures
        res@ == lower_of(s@),
        s@.len() == 0 ==> res@.len() == 0,
{
    s.to_lowercase()
}

/// `pat` occurs in `text` starting at position `i`.
pub open spec fn match_at(text: Seq<char>, pat: Seq<char>, i: int) -> bool {
    &&& 0 <= i
    &&& i + pat.len() <= text.len()
    &&& forall|k: int| 0 <= k < pat.len() ==> text[i + k] == pat[k]
}

/// `pat` occurs somewhere in `text` as a contiguous substring.
pub open spec fn contains_seq(text: Seq<char>, pat: Seq<char>) -> bool {
    exists|i: int| match_at(text, pat, i)
}

/// The lowered query `query_lower` hits `p`: it is a substring of the
/// lowercased name or of the lowercased description.
pub open spec fn package_matches(p: Package, query_lower: Seq<char>) -> bool {
    ||| contains_seq(lower_of(p.name@), query_lower)
    ||| contains_seq(lower_of(p.description@), query_lower)
}

/// The catalog entries hit by the lowered query, in catalog order.
pub open spec fn spec_filter(catalog: Seq<Package>, query_lower: Seq<char>) -> Seq<Package> {
    catalog.filter(|p: Package| package_matches(p, query_lower))
}

/// Whether `pat` occurs in `text` starting at position `i`.
fn occurs_at(text: &str, pat: &str, i: usize, text_len: usize, pat_len: usize) -> (res: bool)
    requires
        text_len == text@.len(),
        pat_len == pat@.len(),
        i + pat_len <= text_len,
    ensures
        res == match_at(text@, pat@, i as int),
{
    let mut k: usize = 0;
    while k < pat_len
        invariant
            k <= pat_len,
            text_len == text@.len(),
            pat_len == pat@.len(),
            i + pat_len <= text_len,
            forall|j: int| 0 <= j < k ==> text@[i + j] == pat@[j],
        decreases pat_len - k,
    {
        if text.get_char(i + k) != pat.get_char(k) {
            return false;
        }
        k = k + 1;
    }
    true
}

/// Whether `pat` occurs anywhere in `text` as a contiguous substring.
/// An empty `pat` occurs in every `text`.
pub fn contains_str(text: &str, pat: &str) -> (res: bool)
    ensures
        res == contains_seq(text@, pat@),
{
    let text_len = text.unicode_len();
    let pat_len = pat.unicode_len();
    if pat_len > text_len {
        return false;
    }
    let mut i: usize = 0;
    while i <= text_len - pat_len
        invariant
            text_len == text@.len(),
            pat_len == pat@.len(),
            pat_len <= text_len,
            i <= text_len - pat_len + 1,
            forall|j: int| 0 <= j < i ==> !match_at(text@, pat@, j),
        decreases text_len - pat_len - i + 1,
    {
        if occurs_at(text, pat, i, text_len, pat_len) {
            return true;
        }
        i = i + 1;
    }
    false
}

/// Whether the already-lowercased query hits the package.
fn matches_lowered(p: &Package, query_lower: &str) -> (res: bool)
    ensures
        res == package_matches(*p, query_lower@),
{
    let name_lower = to_lowercase(p.name.as_str());
    if contains_str(name_lower.as_str(), query_lower) {
        return true;
    }
    let description_lower = to_lowercase(p.description.as_str());
    contains_str(description_lower.as_str(), query_lower)
}

/// The filtered view of `catalog` under `query`: the packages whose
/// lowercased name or description contains the lowercased query, in
/// catalog order. An empty query keeps the whole catalog.
pub fn filter_catalog(catalog: &Vec<Package>, query: &str) -> (res: Vec<Package>)
    ensures
        res@ == spec_filter(catalog@, lower_of(query@)),
        query@.len() == 0 ==> res@ == catalog@,
{
    let query_lower = to_lowercase(query);
    let ghost pred = |p: Package| package_matches(p, lower_of(query@));
    let mut res: Vec<Package> = Vec::new();
    let mut i: usize = 0;
    while i < catalog.len()
        invariant
            i <= catalog.len(),
            query_lower@ == lower_of(query@),
            pred == (|p: Package| package_matches(p, lower_of(query@))),
            res@ == catalog@.subrange(0, i as int).filter(pred),
        decreases catalog.len() - i,
    {
        proof {
            lemma_filter_push(catalog@.subrange(0, i as int), catalog@[i as int], pred);
            assert(catalog@.subrange(0, i as int).push(catalog@[i as int]) =~= catalog@.subrange(
                0,
                i + 1 as int,
            ));
        }
        if matches_lowered(&catalog[i], query_lower.as_str()) {
            res.push(catalog[i].clone());
        }
        i = i + 1;
    }
    proof {
        assert(catalog@.subrange(0, catalog@.len() as int) =~= catalog@);
        if query@.len() == 0 {
            lemma_filter_empty_query(catalog@, lower_of(query@));
        }
    }
    res
}

/// Appending one element to a sequence extends its filtered view by that
/// element exactly when the predicate holds of it.
proof fn lemma_filter_push(s: Seq<Package>, x: Package, pred: spec_fn(Package) -> bool)
    ensures
        s.push(x).filter(pred) == if pred(x) {
            s.filter(pred).push(x)
        } else {
            s.filter(pred)
        },
{
    reveal(Seq::filter);
    assert(s.push(x).drop_last() =~= s);
    assert(s.push(x).last() == x);
}

/// Filtering keeps a sequence whole when the predicate holds of every
/// element.
proof fn lemma_filter_all(s: Seq<Package>, pred: spec_fn(Package) -> bool)
    requires
        forall|i: int| 0 <= i < s.len() ==> pred(s[i]),
    ensures
        s.filter(pred) == s,
    decreases s.len(),
{
    reveal(Seq::filter);
    if s.len() > 0 {
        lemma_filter_all(s.drop_last(), pred);
        assert(s.drop_last().push(s.last()) =~= s);
    }
}

/// Filtering with an empty query returns the catalog unchanged: order
/// preserved, no omissions. An empty query is a substring of every
/// lowercased name, so it hits every package.
pub proof fn lemma_filter_empty_query(catalog: Seq<Package>, query_lower: Seq<char>)
    requires
        query_lower.len() == 0,
    ensures
        spec_filter(catalog, query_lower) == catalog,
{
    assert forall|i: int| 0 <= i < catalog.len() implies (|p: Package|
        package_matches(p, query_lower))(catalog[i]) by {
        assert(match_at(lower_of(catalog[i].name@), query_lower, 0));
    }
    lemma_filter_all(catalog, |p: Package| package_matches(p, query_lower));
}

/// Every element of the filtered view is hit by the query, and every
/// catalog entry hit by the query appears in the filtered view.
pub proof fn lemma_filter_sound_and_complete(catalog: Seq<Package>, query_lower: Seq<char>)
    ensures
        forall|i: int|
            0 <= i < spec_filter(catalog, query_lower).len() ==> package_matches(
                #[trigger] spec_filter(catalog, query_lower)[i],
                query_lower,
            ),
        forall|i: int|
            0 <= i < catalog.len() && package_matches(#[trigger] catalog[i], query_lower)
                ==> spec_filter(catalog, query_lower).contains(catalog[i]),
{
    let pred = |p: Package| package_matches(p, query_lower);
    assert forall|i: int| 0 <= i < spec_filter(catalog, query_lower).len() implies package_matches(
        spec_filter(catalog, query_lower)[i],
        query_lower,
    ) by {
        catalog.lemma_filter_pred(pred, i);
    }
    assert forall|i: int|
        0 <= i < catalog.len() && package_matches(catalog[i], query_lower) implies spec_filter(
        catalog,
        query_lower,
    ).contains(catalog[i]) by {
        catalog.lemma_filter_contains(pred, i);
    }
}

/// The filter is idempotent: filtering an already-filtered view with the
/// same query changes nothing.
pub proof fn lemma_filter_idempotent(catalog: Seq<Package>, query_lower: Seq<char>)
    ensures
        spec_filter(spec_filter(catalog, query_lower), query_lower) == spec_filter(
            catalog,
            query_lower,
        ),
{
    let pred = |p: Package| package_matches(p, query_lower);
    let once = spec_filter(catalog, query_lower);
    assert forall|i: int| 0 <= i < once.len() implies pred(once[i]) by {
        catalog.lemma_filter_pred(pred, i);
    }
    lemma_filter_all(once, pred);
}

} // verus!
