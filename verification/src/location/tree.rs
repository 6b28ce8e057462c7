//! The location hierarchy of a branch as a forest: each location under its parent, in the
//! order the locations were listed, with the bins it holds.
use super::{Bin, Location, LocationTreeNode};
use crate::text::str_eq;
use vstd::prelude::*;

verus! {

/// Whether `l` is listed under the location whose ID is `id`.
pub open spec fn is_child_of(l: Location, id: Seq<char>) -> bool {
    l.parent_id matches Some(p) && p@ == id
}

/// The locations listed under `id`, in list order.
pub open spec fn children_of(locs: Seq<Location>, id: Seq<char>) -> Seq<Location>
    decreases locs.len(),
{
    if locs.len() == 0 {
        Seq::empty()
    } else if is_child_of(locs.last(), id) {
        children_of(locs.drop_last(), id).push(locs.last())
    } else {
        children_of(locs.drop_last(), id)
    }
}

/// The locations without a parent, in list order.
pub open spec fn roots_of(locs: Seq<Location>) -> Seq<Location>
    decreases locs.len(),
{
    if locs.len() == 0 {
        Seq::empty()
    } else if locs.last().parent_id is None {
        roots_of(locs.drop_last()).push(locs.last())
    } else {
        roots_of(locs.drop_last())
    }
}

/// The bins held by the location whose ID is `id`, in list order.
pub open spec fn bins_of(bins: Seq<Bin>, id: Seq<char>) -> Seq<Bin>
    decreases bins.len(),
{
    if bins.len() == 0 {
        Seq::empty()
    } else if bins.last().location_id@ == id {
        bins_of(bins.drop_last(), id).push(bins.last())
    } else {
        bins_of(bins.drop_last(), id)
    }
}

/// Whether `node` is the subtree of its location over the listed locations and bins, down to
/// `depth` levels below it: its bins are the bins it holds, and (while levels remain) its
/// children are the subtrees of the locations listed under it, in list order.
pub open spec fn subtree_ok(node: LocationTreeNode, locs: Seq<Location>, bins: Seq<Bin>, depth: nat) -> bool
    decreases depth,
{
    &&& node.bins@ == bins_of(bins, node.location.id@)
    &&& if depth == 0 {
        node.children@.len() == 0
    } else {
        let kids = children_of(locs, node.location.id@);
        &&& node.children@.len() == kids.len()
        &&& forall|k: int|
            0 <= k < kids.len() ==> (#[trigger] node.children@[k]).location == kids[k] && subtree_ok(
                node.children@[k],
                locs,
                bins,
                (depth - 1) as nat,
            )
    }
}

fn copy_opt(o: &Option<String>) -> (r: Option<String>)
    ensures
        r == *o,
{
    match o {
        Some(s) => Some(s.clone()),
        None => None,
    }
}

fn copy_location(l: &Location) -> (r: Location)
    ensures
        r == *l,
{
    Location {
        id: l.id.clone(),
        branch_id: l.branch_id.clone(),
        parent_id: copy_opt(&l.parent_id),
        name: l.name.clone(),
        code: l.code.clone(),
        location_type: copy_opt(&l.location_type),
        is_active: l.is_active,
        created_at: l.created_at.clone(),
        updated_at: l.updated_at.clone(),
    }
}

fn copy_bin(b: &Bin) -> (r: Bin)
    ensures
        r == *b,
{
    Bin {
        id: b.id.clone(),
        location_id: b.location_id.clone(),
        name: b.name.clone(),
        code: b.code.clone(),
        is_active: b.is_active,
        created_at: b.created_at.clone(),
        updated_at: b.updated_at.clone(),
    }
}

fn is_listed_under(l: &Location, id: &str) -> (r: bool)
    ensures
        r == is_child_of(*l, id@),
{
    match &l.parent_id {
        Some(p) => str_eq(p.as_str(), id),
        None => false,
    }
}

/// The bins held by the location `id`, in list order.
fn bins_held(bins: &Vec<Bin>, id: &str) -> (r: Vec<Bin>)
    ensures
        r@ == bins_of(bins@, id@),
{
    let mut out: Vec<Bin> = Vec::new();
    let mut i: usize = 0;
    while i < bins.len()
        invariant
            i <= bins@.len(),
            out@ == bins_of(bins@.take(i as int), id@),
        decreases bins.len() - i,
    {
        proof {
            assert(bins@.take(i + 1).drop_last() =~= bins@.take(i as int));
        }
        if str_eq(bins[i].location_id.as_str(), id) {
            out.push(copy_bin(&bins[i]));
        }
        i = i + 1;
    }
    assert(bins@.take(bins@.len() as int) =~= bins@);
    out
}

/// The subtree of `loc`, `depth` levels deep.
fn build_subtree(loc: Location, locs: &Vec<Location>, bins: &Vec<Bin>, depth: usize) -> (n: LocationTreeNode)
    ensures
        n.location == loc,
        subtree_ok(n, locs@, bins@, depth as nat),
    decreases depth,
{
    let mut children: Vec<LocationTreeNode> = Vec::new();
    if depth > 0 {
        let mut i: usize = 0;
        while i < locs.len()
            invariant
                0 < depth,
                i <= locs@.len(),
                children@.len() == children_of(locs@.take(i as int), loc.id@).len(),
                forall|k: int|
                    0 <= k < children@.len() ==> (#[trigger] children@[k]).location == children_of(
                        locs@.take(i as int),
                        loc.id@,
                    )[k] && subtree_ok(children@[k], locs@, bins@, (depth - 1) as nat),
            decreases locs.len() - i,
        {
            proof {
                assert(locs@.take(i + 1).drop_last() =~= locs@.take(i as int));
                assert(locs@.take(i + 1).last() == locs@[i as int]);
            }
            if is_listed_under(&locs[i], loc.id.as_str()) {
                let child = build_subtree(copy_location(&locs[i]), locs, bins, depth - 1);
                children.push(child);
            }
            i = i + 1;
        }
        assert(locs@.take(locs@.len() as int) =~= locs@);
    }
    let held = bins_held(bins, loc.id.as_str());
    LocationTreeNode { location: loc, children, bins: held }
}

/// Whether `forest` is the location tree of the listed locations and bins: one subtree per
/// location without a parent, in list order, each followed down as many levels as there
/// are locations. A location whose parent is not listed appears nowhere.
pub open spec fn location_forest_ok(forest: Seq<LocationTreeNode>, locs: Seq<Location>, bins: Seq<Bin>) -> bool {
    let roots = roots_of(locs);
    &&& forest.len() == roots.len()
    &&& forall|k: int|
        0 <= k < roots.len() ==> (#[trigger] forest[k]).location == roots[k] && subtree_ok(
            forest[k],
            locs,
            bins,
            locs.len(),
        )
}

/// Builds the location tree of a branch from its listed locations and bins.
pub fn build_location_tree(locations: &Vec<Location>, bins: &Vec<Bin>) -> (r: Vec<LocationTreeNode>)
    ensures
        location_forest_ok(r@, locations@, bins@),
{
    let mut forest: Vec<LocationTreeNode> = Vec::new();
    let n = locations.len();
    let mut i: usize = 0;
    while i < n
        invariant
            n == locations@.len(),
            i <= n,
            forest@.len() == roots_of(locations@.take(i as int)).len(),
            forall|k: int|
                0 <= k < forest@.len() ==> (#[trigger] forest@[k]).location == roots_of(
                    locations@.take(i as int),
                )[k] && subtree_ok(forest@[k], locations@, bins@, n as nat),
        decreases n - i,
    {
        proof {
            assert(locations@.take(i + 1).drop_last() =~= locations@.take(i as int));
            assert(locations@.take(i + 1).last() == locations@[i as int]);
        }
        if locations[i].parent_id.is_none() {
            let node = build_subtree(copy_location(&locations[i]), locations, bins, n);
            forest.push(node);
        }
        i = i + 1;
    }
    assert(locations@.take(n as int) =~= locations@);
    forest
}

} // verus!
