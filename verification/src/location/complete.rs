//! With distinct location IDs the location tree is complete: following each location down
//! as many levels as there are locations never cuts off a listed child.
use super::tree::{bins_of, children_of, is_child_of, location_forest_ok, roots_of, subtree_ok};
use super::{Bin, Location, LocationTreeNode};
use vstd::prelude::*;

verus! {

/// Whether no two listed locations share an ID.
pub open spec fn distinct_ids(locs: Seq<Location>) -> bool {
    forall|i: int, j: int|
        0 <= i < locs.len() && 0 <= j < locs.len() && i != j ==> (#[trigger] locs[i]).id@ != (#[trigger] locs[j]).id@
}

/// Whether `node` is the whole subtree of its location: its bins, and every location listed
/// under it as a child in list order, each with its whole subtree.
pub open spec fn subtree_complete(node: LocationTreeNode, locs: Seq<Location>, bins: Seq<Bin>) -> bool
    decreases node,
{
    let kids = children_of(locs, node.location.id@);
    &&& node.bins@ == bins_of(bins, node.location.id@)
    &&& node.children@.len() == kids.len()
    &&& forall|k: int|
        0 <= k < kids.len() ==> (#[trigger] node.children@[k]).location == kids[k] && subtree_complete(
            node.children@[k],
            locs,
            bins,
        )
}

/// Whether `chain` leads from a location without a parent down to its last location, each
/// one listed under the one before it.
pub open spec fn parent_chain(chain: Seq<Location>, locs: Seq<Location>) -> bool {
    &&& chain.len() > 0
    &&& chain[0].parent_id is None
    &&& forall|i: int| 0 <= i < chain.len() ==> locs.contains(#[trigger] chain[i])
    &&& forall|i: int| 0 < i < chain.len() ==> is_child_of(#[trigger] chain[i], chain[i - 1].id@)
}

/// The locations listed under `id` are listed locations whose parent is `id`.
proof fn lemma_children_of_listed(locs: Seq<Location>, id: Seq<char>)
    ensures
        forall|k: int|
            0 <= k < children_of(locs, id).len() ==> locs.contains(#[trigger] children_of(locs, id)[k])
                && is_child_of(children_of(locs, id)[k], id),
    decreases locs.len(),
{
    if locs.len() > 0 {
        let rest = locs.drop_last();
        lemma_children_of_listed(rest, id);
        assert forall|k: int| 0 <= k < children_of(locs, id).len() implies locs.contains(
            #[trigger] children_of(locs, id)[k],
        ) && is_child_of(children_of(locs, id)[k], id) by {
            let c = children_of(locs, id)[k];
            if k < children_of(rest, id).len() {
                assert(c == children_of(rest, id)[k]);
                let i = choose|i: int| 0 <= i < rest.len() && rest[i] == c;
                assert(locs[i] == c);
            } else {
                assert(c == locs.last());
                assert(locs[locs.len() - 1] == c);
            }
        }
    }
}

/// The locations without a parent are listed locations.
proof fn lemma_roots_of_listed(locs: Seq<Location>)
    ensures
        forall|k: int|
            0 <= k < roots_of(locs).len() ==> locs.contains(#[trigger] roots_of(locs)[k])
                && roots_of(locs)[k].parent_id is None,
    decreases locs.len(),
{
    if locs.len() > 0 {
        let rest = locs.drop_last();
        lemma_roots_of_listed(rest);
        assert forall|k: int| 0 <= k < roots_of(locs).len() implies locs.contains(#[trigger] roots_of(locs)[k])
            && roots_of(locs)[k].parent_id is None by {
            let c = roots_of(locs)[k];
            if k < roots_of(rest).len() {
                assert(c == roots_of(rest)[k]);
                let i = choose|i: int| 0 <= i < rest.len() && rest[i] == c;
                assert(locs[i] == c);
            } else {
                assert(c == locs.last());
                assert(locs[locs.len() - 1] == c);
            }
        }
    }
}

/// Listed locations with the same ID are the same location.
proof fn lemma_same_id_same_location(locs: Seq<Location>, a: Location, b: Location)
    requires
        distinct_ids(locs),
        locs.contains(a),
        locs.contains(b),
        a.id@ == b.id@,
    ensures
        a == b,
{
    let i = choose|i: int| 0 <= i < locs.len() && locs[i] == a;
    let j = choose|j: int| 0 <= j < locs.len() && locs[j] == b;
    if i != j {
        assert(locs[i].id@ != locs[j].id@);
    }
}

/// Two different places of a parent chain never hold the same location.
proof fn lemma_chain_places_differ(chain: Seq<Location>, locs: Seq<Location>, i: int, j: int)
    requires
        distinct_ids(locs),
        parent_chain(chain, locs),
        0 <= i < j < chain.len(),
    ensures
        chain[i] != chain[j],
    decreases i,
{
    if chain[i] == chain[j] {
        if i == 0 {
            assert(is_child_of(chain[j], chain[j - 1].id@));
        } else {
            assert(is_child_of(chain[i], chain[i - 1].id@));
            assert(is_child_of(chain[j], chain[j - 1].id@));
            assert(locs.contains(chain[i - 1]) && locs.contains(chain[j - 1]));
            lemma_same_id_same_location(locs, chain[i - 1], chain[j - 1]);
            lemma_chain_places_differ(chain, locs, i - 1, j - 1);
        }
    }
}

/// A parent chain over locations with distinct IDs is no longer than the list.
proof fn lemma_chain_short(chain: Seq<Location>, locs: Seq<Location>)
    requires
        distinct_ids(locs),
        parent_chain(chain, locs),
    ensures
        chain.len() <= locs.len(),
{
    broadcast use vstd::seq_lib::seq_to_set_is_finite;

    assert(chain.no_duplicates()) by {
        assert forall|i: int, j: int| 0 <= i < chain.len() && 0 <= j < chain.len() && i != j implies chain[i]
            != chain[j] by {
            if i < j {
                lemma_chain_places_differ(chain, locs, i, j);
            } else {
                lemma_chain_places_differ(chain, locs, j, i);
            }
        }
    }
    chain.unique_seq_to_set();
    assert(chain.to_set().subset_of(locs.to_set())) by {
        assert forall|x: Location| chain.to_set().contains(x) implies locs.to_set().contains(x) by {
            let i = choose|i: int| 0 <= i < chain.len() && chain[i] == x;
            assert(locs.contains(chain[i]));
        }
    }
    vstd::set_lib::lemma_len_subset(chain.to_set(), locs.to_set());
    locs.lemma_cardinality_of_set();
}

/// A node followed down `d` levels, reached from a root through `chain`, with as many
/// levels left as the list has locations beyond the chain, is its whole subtree.
proof fn lemma_bounded_subtree_complete(
    node: LocationTreeNode,
    locs: Seq<Location>,
    bins: Seq<Bin>,
    d: nat,
    chain: Seq<Location>,
)
    requires
        distinct_ids(locs),
        subtree_ok(node, locs, bins, d),
        parent_chain(chain, locs),
        chain.last() == node.location,
        chain.len() + d == locs.len() + 1,
    ensures
        subtree_complete(node, locs, bins),
    decreases d,
{
    lemma_chain_short(chain, locs);
    let kids = children_of(locs, node.location.id@);
    lemma_children_of_listed(locs, node.location.id@);
    assert forall|k: int| 0 <= k < kids.len() implies (#[trigger] node.children@[k]).location == kids[k]
        && subtree_complete(node.children@[k], locs, bins) by {
        let next = chain.push(kids[k]);
        assert(locs.contains(kids[k]) && is_child_of(kids[k], node.location.id@));
        assert(parent_chain(next, locs)) by {
            assert forall|i: int| 0 <= i < next.len() implies locs.contains(#[trigger] next[i]) by {
                if i < chain.len() {
                    assert(next[i] == chain[i]);
                }
            }
            assert forall|i: int| 0 < i < next.len() implies is_child_of(#[trigger] next[i], next[i - 1].id@) by {
                if i < chain.len() {
                    assert(next[i] == chain[i] && next[i - 1] == chain[i - 1]);
                } else {
                    assert(next[i - 1] == chain.last());
                }
            }
        }
        lemma_bounded_subtree_complete(node.children@[k], locs, bins, (d - 1) as nat, next);
    }
}

/// With distinct location IDs, the location tree is complete: every node of the forest
/// has every location listed under it as a child, however deep, so following each root
/// down as many levels as there are locations cuts nothing off.
pub proof fn lemma_location_forest_complete(forest: Seq<LocationTreeNode>, locs: Seq<Location>, bins: Seq<Bin>)
    requires
        distinct_ids(locs),
        location_forest_ok(forest, locs, bins),
    ensures
        forall|k: int| 0 <= k < forest.len() ==> subtree_complete(#[trigger] forest[k], locs, bins),
{
    lemma_roots_of_listed(locs);
    assert forall|k: int| 0 <= k < forest.len() implies subtree_complete(#[trigger] forest[k], locs, bins) by {
        let root = roots_of(locs)[k];
        assert(locs.contains(root) && root.parent_id is None);
        let chain = seq![root];
        assert(parent_chain(chain, locs)) by {
            assert forall|i: int| 0 <= i < chain.len() implies locs.contains(#[trigger] chain[i]) by {
                assert(chain[i] == root);
            }
        }
        lemma_bounded_subtree_complete(forest[k], locs, bins, locs.len(), chain);
    }
}

} // verus!
