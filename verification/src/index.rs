//! The hash indexes of the builder: from a pair of node ids to the edge between
//! them, and from a domain's name to its id.
//!
//! Both are `rustc_hash` maps. The verifier cannot look inside them, so each has
//! a name for what it holds, and every call goes through a function here whose
//! contract is taken on trust.
use std::collections::HashMap;
use std::hash::BuildHasherDefault;

use rustc_hash::FxHasher;
use vstd::prelude::*;

verus! {

/// The hasher of `rustc_hash`, carried through as an opaque value.
#[verifier::external_type_specification]
#[verifier::external_body]
pub struct ExFxHasher(FxHasher);

/// std's `BuildHasherDefault`, carried through as an opaque value.
#[verifier::external_type_specification]
#[verifier::external_body]
#[verifier::reject_recursive_types(H)]
pub struct ExBuildHasherDefault<H>(BuildHasherDefault<H>);

/// From an ordered pair of node ids to the id of the edge between them.
pub type EdgeIndex = HashMap<(usize, usize), usize, BuildHasherDefault<FxHasher>>;

/// From a domain's name to its id.
pub type DomainIndex = HashMap<String, usize, BuildHasherDefault<FxHasher>>;

/// What an edge index holds.
pub uninterp spec fn edge_index_contents(index: EdgeIndex) -> Map<(usize, usize), usize>;

/// What a domain index holds, each name as its characters.
pub uninterp spec fn domain_index_contents(index: DomainIndex) -> Map<Seq<char>, usize>;

/// An edge index without entries.
pub open spec fn no_edges() -> Map<(usize, usize), usize> {
    Map::empty()
}

/// A domain index without entries.
pub open spec fn no_domains() -> Map<Seq<char>, usize> {
    Map::empty()
}

/// `FxHashMap::default()`: a new map holds nothing.
#[verifier::external_body]
pub(crate) fn edge_index_new() -> (index: EdgeIndex)
    ensures
        edge_index_contents(index) == no_edges(),
{
    HashMap::default()
}

/// `HashMap::get` on an edge index: the id stored for the pair, `None` where
/// the pair has no entry.
#[verifier::external_body]
pub(crate) fn edge_index_get(index: &EdgeIndex, pred: usize, succ: usize) -> (found: Option<usize>)
    ensures
        edge_index_contents(*index).dom().contains((pred, succ)) ==> found == Some(
            edge_index_contents(*index)[(pred, succ)],
        ),
        !edge_index_contents(*index).dom().contains((pred, succ)) ==> found is None,
{
    index.get(&(pred, succ)).copied()
}

/// `HashMap::insert` on an edge index: afterwards the pair maps to `edge`, and
/// every other pair to what it mapped to before.
#[verifier::external_body]
pub(crate) fn edge_index_insert(index: &mut EdgeIndex, pred: usize, succ: usize, edge: usize)
    ensures
        edge_index_contents(*final(index)) == edge_index_contents(*old(index)).insert(
            (pred, succ),
            edge,
        ),
{
    index.insert((pred, succ), edge);
}

/// `FxHashMap::default()`: a new map holds nothing.
#[verifier::external_body]
pub(crate) fn domain_index_new() -> (index: DomainIndex)
    ensures
        domain_index_contents(index) == no_domains(),
{
    HashMap::default()
}

/// `HashMap::get` on a domain index: the id stored for the name, `None` where
/// the name has no entry.
#[verifier::external_body]
pub(crate) fn domain_index_get(index: &DomainIndex, name: &str) -> (found: Option<usize>)
    ensures
        domain_index_contents(*index).dom().contains(name@) ==> found == Some(
            domain_index_contents(*index)[name@],
        ),
        !domain_index_contents(*index).dom().contains(name@) ==> found is None,
{
    index.get(name).copied()
}

/// `HashMap::insert` on a domain index: afterwards the name maps to `domain`,
/// and every other name to what it mapped to before.
#[verifier::external_body]
pub(crate) fn domain_index_insert(index: &mut DomainIndex, name: &str, domain: usize)
    ensures
        domain_index_contents(*final(index)) == domain_index_contents(*old(index)).insert(
            name@,
            domain,
        ),
{
    index.insert(name.to_owned(), domain);
}

} // verus!
