//! What a run decides for each request, before any copy or write.

use vstd::prelude::*;
use crate::error::VendorError;
use crate::manifest::PatchEdit;
use crate::paths::{file_name_of, vendor_dir, vendor_root};
use crate::request::{parse_request, request_name, request_range, PackageRequest};
use crate::select::{find_package, lemma_unique_match_chosen, is_first_match, match_count, pkg_matches, range_text, ResolvedPackage, Selection};
use crate::version::{range_display, range_parses};

verus! {

/// The decision for one request: which package, and where its copy goes.
pub struct VendorPlan {
    /// The parsed request.
    pub request: PackageRequest,
    /// The chosen package in the graph and how many others also matched.
    pub selection: Selection,
    /// `vendor/<last component of the package root>`.
    pub vendor_dir: String,
}

/// The record reported for each vendored request.
pub struct VendoredInfo {
    /// The request token as given.
    pub request: String,
    /// The absolute path of the local copy.
    pub path: String,
}

/// The token's range, when it has one, is well formed.
pub open spec fn range_ok(t: Seq<char>) -> bool {
    request_range(t) matches Some(r) ==> range_parses(r)
}

/// Some package of the graph matches the token.
pub open spec fn has_match(t: Seq<char>, g: Seq<ResolvedPackage>) -> bool {
    exists|i: int| 0 <= i < g.len() && pkg_matches(#[trigger] g[i], request_name(t), request_range(t))
}

/// The first matching package has a root with a final component.
pub open spec fn first_root_named(t: Seq<char>, g: Seq<ResolvedPackage>) -> bool {
    forall|k: int| #[trigger]
        is_first_match(g, request_name(t), request_range(t), k) ==> file_name_of(g[k].root@) is Some
}

/// Planning the token succeeds.
pub open spec fn plan_succeeds(t: Seq<char>, g: Seq<ResolvedPackage>) -> bool {
    range_ok(t) && has_match(t, g) && first_root_named(t, g)
}

/// `p` is the plan for token `t` on graph `g`.
pub open spec fn plan_fits(p: VendorPlan, t: Seq<char>, g: Seq<ResolvedPackage>) -> bool {
    let k = p.selection.index as int;
    &&& p.request.token@ == t
    &&& p.request.name@ == request_name(t)
    &&& range_text(p.request.range) == request_range(t)
    &&& is_first_match(g, request_name(t), request_range(t), k)
    &&& p.selection.other_matches + 1 == match_count(g, request_name(t), request_range(t))
    &&& p.vendor_dir@ == vendor_root() + file_name_of(g[k].root@).unwrap()
    &&& file_name_of(g[k].root@).unwrap().len() > 0
    &&& !file_name_of(g[k].root@).unwrap().contains('/')
}

/// `e` is the error planning reports for token `t` on graph `g`: a malformed
/// range first, then no match, then a root without a final component.
pub open spec fn plan_error_fits(e: VendorError, t: Seq<char>, g: Seq<ResolvedPackage>) -> bool {
    if !range_ok(t) {
        e is MalformedRequest
    } else if !has_match(t, g) {
        e matches VendorError::PackageNotFound { name } && name@ == request_name(t)
    } else {
        e is InvalidPackagePath
    }
}

/// Parses one token, finds its package and computes its vendor directory.
pub fn plan_request(token: &str, graph: &Vec<ResolvedPackage>) -> (r: Result<VendorPlan, VendorError>)
    ensures
        r is Ok <==> plan_succeeds(token@, graph@),
        r matches Ok(p) ==> plan_fits(p, token@, graph@),
        r matches Err(e) ==> plan_error_fits(e, token@, graph@),
{
    let request = parse_request(token)?;
    let selection = find_package(request.name.as_str(), &request.range, graph)?;
    let k = selection.index;
    let dir = vendor_dir(graph[k].root.as_str());
    match dir {
        Ok(vendor_dir) => Ok(VendorPlan { request, selection, vendor_dir }),
        Err(e) => {
            proof {
                let ghost rt = request_range(token@);
                assert forall|j: int| #[trigger]
                    is_first_match(graph@, request_name(token@), rt, j) implies j == k by {
                    if j < k {
                        assert(!pkg_matches(graph@[j], request_name(token@), rt));
                    }
                    if k < j {
                        assert(!pkg_matches(graph@[k as int], request_name(token@), rt));
                    }
                }
            }
            Err(e)
        },
    }
}

/// A request whose name no resolved package carries fails with
/// `PackageNotFound` for that name, once its range (if any) is well formed.
pub proof fn lemma_unknown_name_not_found(e: VendorError, t: Seq<char>, g: Seq<ResolvedPackage>)
    requires
        range_ok(t),
        forall|i: int| 0 <= i < g.len() ==> (#[trigger] g[i]).name@ != request_name(t),
        plan_error_fits(e, t, g),
    ensures
        !plan_succeeds(t, g),
        e matches VendorError::PackageNotFound { name } && name@ == request_name(t),
{
    assert(!has_match(t, g));
}

/// When exactly one resolved package matches, the plan chooses it, reports no
/// ambiguity and places its copy at `vendor/<last component of its root>`.
pub proof fn lemma_unique_match_plan(p: VendorPlan, t: Seq<char>, g: Seq<ResolvedPackage>, k: int)
    requires
        plan_fits(p, t, g),
        0 <= k < g.len(),
        pkg_matches(g[k], request_name(t), request_range(t)),
        forall|j: int| 0 <= j < g.len() && j != k ==> !pkg_matches(#[trigger] g[j], request_name(t), request_range(t)),
    ensures
        p.selection.index == k,
        p.selection.other_matches == 0,
        p.vendor_dir@ == vendor_root() + file_name_of(g[k].root@).unwrap(),
{
    lemma_unique_match_chosen(g, request_name(t), request_range(t), k);
    let a = p.selection.index as int;
    if a != k {
        assert(!pkg_matches(g[a], request_name(t), request_range(t)));
    }
}

/// Planning the same token twice on the same graph chooses the same package
/// and the same vendor directory.
pub proof fn lemma_plan_repeatable(first: VendorPlan, second: VendorPlan, t: Seq<char>, g: Seq<ResolvedPackage>)
    requires
        plan_fits(first, t, g),
        plan_fits(second, t, g),
    ensures
        first.selection == second.selection,
        first.vendor_dir@ == second.vendor_dir@,
{
    let a = first.selection.index as int;
    let b = second.selection.index as int;
    if a < b {
        assert(!pkg_matches(g[a], request_name(t), request_range(t)));
    }
    if b < a {
        assert(!pkg_matches(g[b], request_name(t), request_range(t)));
    }
}

/// Plans every token in order; the first failure ends the run with its error.
pub fn plan_all(tokens: &Vec<String>, graph: &Vec<ResolvedPackage>) -> (r: Result<Vec<VendorPlan>, VendorError>)
    ensures
        r is Ok <==> forall|i: int| 0 <= i < tokens@.len() ==> plan_succeeds(#[trigger] tokens@[i]@, graph@),
        r matches Ok(v) ==> v@.len() == tokens@.len() && forall|i: int|
            0 <= i < tokens@.len() ==> plan_fits(#[trigger] v@[i], tokens@[i]@, graph@),
        r matches Err(e) ==> exists|i: int|
            0 <= i < tokens@.len() && !plan_succeeds(#[trigger] tokens@[i]@, graph@) && plan_error_fits(
                e,
                tokens@[i]@,
                graph@,
            ),
{
    let mut plans: Vec<VendorPlan> = Vec::new();
    let mut i: usize = 0;
    while i < tokens.len()
        invariant
            0 <= i <= tokens@.len(),
            plans@.len() == i,
            forall|j: int| 0 <= j < i ==> plan_succeeds(#[trigger] tokens@[j]@, graph@),
            forall|j: int| 0 <= j < i ==> plan_fits(#[trigger] plans@[j], tokens@[j]@, graph@),
        decreases tokens.len() - i,
    {
        match plan_request(tokens[i].as_str(), graph) {
            Ok(p) => {
                plans.push(p);
            },
            Err(e) => {
                assert(!plan_succeeds(tokens@[i as int]@, graph@));
                return Err(e);
            },
        }
        i = i + 1;
    }
    Ok(plans)
}

/// The override to record for a plan whose package is `pkg`, once its copy
/// is at `local_path`: keyed by the package's source and the requested name,
/// with the range in canonical form when one was given.
pub fn patch_edit(plan: &VendorPlan, pkg: &ResolvedPackage, local_path: &str) -> (r: PatchEdit)
    ensures
        r.source@ == pkg.source@,
        r.package@ == plan.request.name@,
        r.path@ == local_path@,
        r.version is Some <==> plan.request.range is Some,
        r.version matches Some(v) ==> v@ == range_display(range_text(plan.request.range).unwrap()),
{
    let version = match &plan.request.range {
        Some(range) => Some(range.canonical()),
        None => None,
    };
    PatchEdit {
        source: pkg.source.clone(),
        package: plan.request.name.clone(),
        path: local_path.to_string(),
        version,
    }
}

/// The record reported for a plan whose copy is at `local_path`.
pub fn vendored_info(plan: &VendorPlan, local_path: &str) -> (r: VendoredInfo)
    ensures
        r.request@ == plan.request.token@,
        r.path@ == local_path@,
{
    VendoredInfo { request: plan.request.token.clone(), path: local_path.to_string() }
}

} // verus!
