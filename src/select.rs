//! Picking the resolved package that a request names.

use vstd::prelude::*;
use crate::error::VendorError;
use crate::version::{range_admits, PackageVersion, VersionRange};

verus! {

/// One node of the resolved dependency graph, as plain values.
pub struct ResolvedPackage {
    /// The package name.
    pub name: String,
    /// Its concrete version.
    pub version: PackageVersion,
    /// The display name of the registry or source it comes from.
    pub source: String,
    /// The directory that holds its source tree.
    pub root: String,
}

/// The outcome of a successful search.
#[derive(Clone, Copy, Debug, PartialEq, Eq)]
pub struct Selection {
    /// Position of the chosen package in the graph.
    pub index: usize,
    /// How many further packages matched; above zero the choice was ambiguous.
    pub other_matches: usize,
}

/// The text of an optional range.
pub open spec fn range_text(range: Option<VersionRange>) -> Option<Seq<char>> {
    match range {
        Some(v) => Some(v@),
        None => None,
    }
}

/// A package matches when its name is equal and, with a range, its version is admitted.
pub open spec fn pkg_matches(p: ResolvedPackage, name: Seq<char>, range: Option<Seq<char>>) -> bool {
    &&& p.name@ == name
    &&& range matches Some(r) ==> range_admits(r, p.version@)
}

/// Number of matching packages in `g`.
pub open spec fn match_count(g: Seq<ResolvedPackage>, name: Seq<char>, range: Option<Seq<char>>) -> nat
    decreases g.len(),
{
    if g.len() == 0 {
        0
    } else {
        match_count(g.drop_last(), name, range) + if pkg_matches(g.last(), name, range) {
            1nat
        } else {
            0nat
        }
    }
}

/// `k` is the position of the first matching package.
pub open spec fn is_first_match(
    g: Seq<ResolvedPackage>,
    name: Seq<char>,
    range: Option<Seq<char>>,
    k: int,
) -> bool {
    &&& 0 <= k < g.len()
    &&& pkg_matches(g[k], name, range)
    &&& forall|j: int| 0 <= j < k ==> !pkg_matches(#[trigger] g[j], name, range)
}

proof fn lemma_count_prefix_zero(g: Seq<ResolvedPackage>, name: Seq<char>, range: Option<Seq<char>>)
    requires
        forall|j: int| 0 <= j < g.len() ==> !pkg_matches(#[trigger] g[j], name, range),
    ensures
        match_count(g, name, range) == 0,
    decreases g.len(),
{
    if g.len() > 0 {
        lemma_count_prefix_zero(g.drop_last(), name, range);
    }
}

proof fn lemma_count_one_more(g: Seq<ResolvedPackage>, name: Seq<char>, range: Option<Seq<char>>, k: int)
    requires
        0 <= k < g.len(),
        pkg_matches(g[k], name, range),
    ensures
        match_count(g, name, range) >= match_count(g.take(k), name, range) + 1,
    decreases g.len(),
{
    if k == g.len() - 1 {
        assert(g.drop_last() =~= g.take(k));
    } else {
        lemma_count_one_more(g.drop_last(), name, range, k);
        assert(g.drop_last().take(k) =~= g.take(k));
    }
}

/// Finds the first resolved package that matches `name` and, if given, `range`.
/// Further matches do not fail the search: they are counted, so that the
/// caller can advise narrowing the request. No match is `PackageNotFound`.
pub fn find_package(name: &str, range: &Option<VersionRange>, graph: &Vec<ResolvedPackage>) -> (r:
    Result<Selection, VendorError>)
    ensures
        r is Ok <==> exists|i: int| 0 <= i < graph@.len() && pkg_matches(#[trigger] graph@[i], name@, range_text(*range)),
        r matches Ok(s) ==> {
            &&& is_first_match(graph@, name@, range_text(*range), s.index as int)
            &&& s.other_matches + 1 == match_count(graph@, name@, range_text(*range))
        },
        r matches Err(e) ==> (e matches VendorError::PackageNotFound { name: n } && n@ == name@),
{
    let ghost rt = range_text(*range);
    let mut found: Option<usize> = None;
    let mut count: usize = 0;
    let mut i: usize = 0;
    while i < graph.len()
        invariant
            0 <= i <= graph@.len(),
            rt == range_text(*range),
            count == match_count(graph@.take(i as int), name@, rt),
            count <= i,
            found is None ==> forall|j: int| 0 <= j < i ==> !pkg_matches(#[trigger] graph@[j], name@, rt),
            found matches Some(k) ==> k < i && is_first_match(graph@, name@, rt, k as int),
            found is None <==> count == 0,
        decreases graph.len() - i,
    {
        proof {
            assert(graph@.take(i + 1).drop_last() =~= graph@.take(i as int));
        }
        let p = &graph[i];
        let name_eq = crate::text::same_text(p.name.as_str(), name);
        let ok = name_eq && match range {
            Some(v) => v.matches(&p.version),
            None => true,
        };
        if ok {
            assert(pkg_matches(graph@[i as int], name@, rt));
            if found.is_none() {
                found = Some(i);
            }
            count = count + 1;
        } else {
            assert(!pkg_matches(graph@[i as int], name@, rt));
        }
        i = i + 1;
    }
    proof {
        assert(graph@.take(graph@.len() as int) =~= graph@);
    }
    match found {
        Some(k) => Ok(Selection { index: k, other_matches: count - 1 }),
        None => Err(VendorError::PackageNotFound { name: name.to_string() }),
    }
}

/// When exactly one resolved package matches, it is the one chosen and the
/// choice is not ambiguous.
pub proof fn lemma_unique_match_chosen(
    g: Seq<ResolvedPackage>,
    name: Seq<char>,
    range: Option<Seq<char>>,
    k: int,
)
    requires
        0 <= k < g.len(),
        pkg_matches(g[k], name, range),
        forall|j: int| 0 <= j < g.len() && j != k ==> !pkg_matches(#[trigger] g[j], name, range),
    ensures
        is_first_match(g, name, range, k),
        match_count(g, name, range) == 1,
    decreases g.len(),
{
    if k == g.len() - 1 {
        lemma_count_prefix_zero(g.drop_last(), name, range);
    } else {
        lemma_unique_match_chosen(g.drop_last(), name, range, k);
    }
}

/// When two different resolved packages match, a package is still chosen (the
/// first) and the match count shows the ambiguity.
pub proof fn lemma_ambiguous_match_chosen(
    g: Seq<ResolvedPackage>,
    name: Seq<char>,
    range: Option<Seq<char>>,
    a: int,
    b: int,
)
    requires
        0 <= a < b < g.len(),
        pkg_matches(g[a], name, range),
        pkg_matches(g[b], name, range),
    ensures
        exists|k: int| is_first_match(g, name, range, k),
        match_count(g, name, range) >= 2,
{
    lemma_count_one_more(g, name, range, b);
    lemma_count_one_more(g.take(b), name, range, a);
    lemma_first_exists(g, name, range, a);
}

proof fn lemma_first_exists(g: Seq<ResolvedPackage>, name: Seq<char>, range: Option<Seq<char>>, a: int)
    requires
        0 <= a < g.len(),
        pkg_matches(g[a], name, range),
    ensures
        exists|k: int| is_first_match(g, name, range, k),
    decreases a,
{
    if forall|j: int| 0 <= j < a ==> !pkg_matches(#[trigger] g[j], name, range) {
        assert(is_first_match(g, name, range, a));
    } else {
        let j = choose|j: int| 0 <= j < a && !!pkg_matches(#[trigger] g[j], name, range);
        lemma_first_exists(g, name, range, j);
    }
}

} // verus!
