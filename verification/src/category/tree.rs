//! Pieces of the category tree: which categories are roots, which are listed under a
//! category, and the order siblings are shown in (by lower-cased name, ties in list order).
use super::{Category, CategoryTreeNode};
use crate::batch::{
    bytes_lt, lemma_bytes_lt_irreflexive, lemma_bytes_lt_total, lemma_bytes_lt_transitive, str_lt,
};
use crate::text::{str_eq, to_lowercase, unicode_lower};
use vstd::prelude::*;
use vstd::utf8::encode_utf8;

verus! {

/// Whether some listed category has the ID `id`.
pub open spec fn lists_id(cats: Seq<Category>, id: Seq<char>) -> bool {
    exists|k: int| 0 <= k < cats.len() && (#[trigger] cats[k]).id@ == id
}

/// Whether `c` is shown at the top of the tree of `all`: it has no parent, or its parent
/// is not among the listed categories.
pub open spec fn is_tree_root(c: Category, all: Seq<Category>) -> bool {
    match c.parent_id {
        None => true,
        Some(p) => !lists_id(all, p@),
    }
}

/// The categories of `cats` that are roots of the tree of `all`, in list order.
pub open spec fn roots_among(cats: Seq<Category>, all: Seq<Category>) -> Seq<Category>
    decreases cats.len(),
{
    if cats.len() == 0 {
        Seq::empty()
    } else if is_tree_root(cats.last(), all) {
        roots_among(cats.drop_last(), all).push(cats.last())
    } else {
        roots_among(cats.drop_last(), all)
    }
}

/// The categories of `cats` listed under the category whose ID is `id`, in list order.
pub open spec fn listed_under(cats: Seq<Category>, id: Seq<char>) -> Seq<Category>
    decreases cats.len(),
{
    if cats.len() == 0 {
        Seq::empty()
    } else if cats.last().parent_id matches Some(p) && p@ == id {
        listed_under(cats.drop_last(), id).push(cats.last())
    } else {
        listed_under(cats.drop_last(), id)
    }
}

fn copy_opt(o: &Option<String>) -> (r: Option<String>)
    ensures
        r == *o,
{
    match o {
        Some(s) => Some(s.clone()),
        None => None,
    }
}

fn copy_category(c: &Category) -> (r: Category)
    ensures
        r == *c,
{
    Category {
        id: c.id.clone(),
        name: c.name.clone(),
        parent_id: copy_opt(&c.parent_id),
        description: copy_opt(&c.description),
        is_active: c.is_active,
        created_at: c.created_at.clone(),
        updated_at: c.updated_at.clone(),
    }
}

fn lists(cats: &Vec<Category>, id: &str) -> (r: bool)
    ensures
        r == lists_id(cats@, id@),
{
    let mut i: usize = 0;
    while i < cats.len()
        invariant
            i <= cats@.len(),
            forall|k: int| 0 <= k < i ==> (#[trigger] cats@[k]).id@ != id@,
        decreases cats.len() - i,
    {
        if str_eq(cats[i].id.as_str(), id) {
            assert(cats@[i as int].id@ == id@);
            return true;
        }
        i = i + 1;
    }
    false
}

/// The root categories of the tree, in list order: those without a parent and those whose
/// parent is not listed.
pub fn tree_roots(categories: &Vec<Category>) -> (r: Vec<Category>)
    ensures
        r@ == roots_among(categories@, categories@),
{
    let mut out: Vec<Category> = Vec::new();
    let mut i: usize = 0;
    while i < categories.len()
        invariant
            i <= categories@.len(),
            out@ == roots_among(categories@.take(i as int), categories@),
        decreases categories.len() - i,
    {
        proof {
            assert(categories@.take(i + 1).drop_last() =~= categories@.take(i as int));
        }
        let c = &categories[i];
        let root = match &c.parent_id {
            None => true,
            Some(p) => !lists(categories, p.as_str()),
        };
        if root {
            out.push(copy_category(c));
        }
        i = i + 1;
    }
    assert(categories@.take(categories@.len() as int) =~= categories@);
    out
}

/// The categories listed under the category `id`, in list order.
pub fn children_listed_under(categories: &Vec<Category>, id: &str) -> (r: Vec<Category>)
    ensures
        r@ == listed_under(categories@, id@),
{
    let mut out: Vec<Category> = Vec::new();
    let mut i: usize = 0;
    while i < categories.len()
        invariant
            i <= categories@.len(),
            out@ == listed_under(categories@.take(i as int), id@),
        decreases categories.len() - i,
    {
        proof {
            assert(categories@.take(i + 1).drop_last() =~= categories@.take(i as int));
        }
        let c = &categories[i];
        let under = match &c.parent_id {
            None => false,
            Some(p) => str_eq(p.as_str(), id),
        };
        if under {
            out.push(copy_category(c));
        }
        i = i + 1;
    }
    assert(categories@.take(categories@.len() as int) =~= categories@);
    out
}

/// The sort key of a category: the UTF-8 bytes of its lower-cased name.
pub open spec fn name_key(c: Category) -> Seq<u8> {
    encode_utf8(unicode_lower(c.name@))
}

/// Whether the category at index `i` is shown before the one at index `j`: a smaller key,
/// or the same key and an earlier place in the list.
pub open spec fn shown_before(cats: Seq<Category>, i: int, j: int) -> bool {
    bytes_lt(name_key(cats[i]), name_key(cats[j])) || (name_key(cats[i]) == name_key(cats[j]) && i < j)
}

/// Whether `p` lists indices of `cats`, each shown before the next.
pub open spec fn display_order(cats: Seq<Category>, p: Seq<int>) -> bool {
    &&& forall|k: int| 0 <= k < p.len() ==> 0 <= #[trigger] p[k] < cats.len()
    &&& forall|k: int, l: int| 0 <= k < l < p.len() ==> shown_before(cats, #[trigger] p[k], #[trigger] p[l])
}

/// Whether `r` lists the categories of `cats` in display order: every listed category once,
/// ordered by lower-cased name, ties kept in list order (a stable sort by that key).
pub open spec fn sorted_for_display(r: Seq<Category>, cats: Seq<Category>) -> bool {
    exists|p: Seq<int>|
        #![trigger display_order(cats, p)]
        p.len() == cats.len() && display_order(cats, p) && forall|k: int|
            0 <= k < r.len() ==> r[k] == cats[#[trigger] p[k]]
}

/// Where index `i` goes among the ordered indices `p`: before the first one whose category
/// must come after category `i`, else at the end.
pub open spec fn insert_pos(cats: Seq<Category>, p: Seq<int>, i: int) -> int
    decreases p.len(),
{
    if p.len() == 0 {
        0
    } else if bytes_lt(name_key(cats[i]), name_key(cats[p[0]])) {
        0
    } else {
        1 + insert_pos(cats, p.skip(1), i)
    }
}

/// The display order of the first `n` categories, as indices: each index in turn placed
/// after every earlier one that does not come after it.
pub open spec fn display_indices(cats: Seq<Category>, n: nat) -> Seq<int>
    decreases n,
{
    if n == 0 {
        Seq::empty()
    } else {
        let p = display_indices(cats, (n - 1) as nat);
        p.insert(insert_pos(cats, p, n - 1), n - 1)
    }
}

/// The categories of `cats` in display order.
pub open spec fn display_sorted(cats: Seq<Category>) -> Seq<Category> {
    display_indices(cats, cats.len()).map_values(|i: int| cats[i])
}

/// Putting index `i` at `pos` keeps the indices in display order when every index before
/// `pos` does not sort after `i` and the one at `pos` (if any) sorts strictly after it.
proof fn lemma_insert_keeps_display_order(cats: Seq<Category>, p: Seq<int>, i: int, pos: int)
    requires
        0 <= i < cats.len(),
        p.len() == i,
        forall|k: int| 0 <= k < i ==> 0 <= #[trigger] p[k] < i,
        display_order(cats, p),
        0 <= pos <= i,
        forall|k: int| 0 <= k < pos ==> !bytes_lt(name_key(cats[i]), name_key(cats[#[trigger] p[k]])),
        pos < i ==> bytes_lt(name_key(cats[i]), name_key(cats[p[pos]])),
    ensures
        forall|k: int| 0 <= k < i + 1 ==> 0 <= #[trigger] p.insert(pos, i)[k] < i + 1,
        display_order(cats, p.insert(pos, i)),
{
    let ci = i;
    let q = p.insert(pos, ci);
    assert forall|k: int| 0 <= k < q.len() implies 0 <= #[trigger] q[k] < i + 1 by {
        if k < pos {
            assert(q[k] == p[k]);
        } else if k > pos {
            assert(q[k] == p[k - 1]);
        }
    }
    assert forall|k: int, l: int| 0 <= k < l < q.len() implies shown_before(
        cats,
        #[trigger] q[k],
        #[trigger] q[l],
    ) by {
        let ki = name_key(cats[ci]);
        if k < pos && l < pos {
            assert(q[k] == p[k] && q[l] == p[l]);
        } else if k < pos && l == pos {
            assert(q[k] == p[k] && q[l] == ci);
            let kk = name_key(cats[p[k]]);
            assert(!bytes_lt(ki, kk));
            if kk != ki {
                lemma_bytes_lt_total(kk, ki);
            }
        } else if k < pos && l > pos {
            assert(q[k] == p[k] && q[l] == p[l - 1]);
            assert(shown_before(cats, p[k], p[l - 1]));
        } else if k == pos {
            assert(q[k] == ci && q[l] == p[l - 1]);
            // i sorts strictly before the category at `pos`, hence before all later ones
            assert(pos < i);
            let kp = name_key(cats[p[pos]]);
            assert(bytes_lt(ki, kp));
            if l - 1 > pos {
                assert(shown_before(cats, p[pos], p[l - 1]));
                let kl = name_key(cats[p[l - 1]]);
                if bytes_lt(kp, kl) {
                    lemma_bytes_lt_transitive(ki, kp, kl);
                }
            }
        } else {
            assert(q[k] == p[k - 1] && q[l] == p[l - 1]);
            assert(shown_before(cats, p[k - 1], p[l - 1]));
        }
    }
}

/// The display order of categories, as list indices: by lower-cased name, ties kept in
/// list order.
pub fn display_permutation(categories: &Vec<Category>) -> (r: Vec<usize>)
    ensures
        r@.len() == categories@.len(),
        display_order(categories@, r@.map_values(|x: usize| x as int)),
        r@.map_values(|x: usize| x as int) == display_indices(categories@, categories@.len()),
{
    let n = categories.len();
    let mut keys: Vec<String> = Vec::new();
    let mut j: usize = 0;
    while j < n
        invariant
            n == categories@.len(),
            j <= n,
            keys@.len() == j,
            forall|k: int| 0 <= k < j ==> (#[trigger] keys@[k])@ == unicode_lower(categories@[k].name@),
        decreases n - j,
    {
        keys.push(to_lowercase(categories[j].name.as_str()));
        j = j + 1;
    }
    let mut order: Vec<usize> = Vec::new();
    let ghost mut p: Seq<int> = Seq::empty();
    let mut i: usize = 0;
    while i < n
        invariant
            n == categories@.len(),
            keys@.len() == n,
            forall|k: int| 0 <= k < n ==> (#[trigger] keys@[k])@ == unicode_lower(categories@[k].name@),
            i <= n,
            order@.len() == i,
            p.len() == i,
            forall|k: int| 0 <= k < i ==> #[trigger] p[k] == order@[k] as int,
            forall|k: int| 0 <= k < i ==> 0 <= #[trigger] p[k] < i,
            forall|k: int| 0 <= k < i ==> #[trigger] order@[k] < i,
            display_order(categories@, p),
            p == display_indices(categories@, i as nat),
        decreases n - i,
    {
        // the first place whose category must come after category i
        let mut pos: usize = 0;
        assert(p.skip(0) =~= p);
        while pos < order.len() && !str_lt(keys[i].as_str(), keys[order[pos]].as_str())
            invariant
                n == categories@.len(),
                keys@.len() == n,
                forall|k: int| 0 <= k < n ==> (#[trigger] keys@[k])@ == unicode_lower(categories@[k].name@),
                i < n,
                order@.len() == i,
                p.len() == i,
                forall|k: int| 0 <= k < i ==> #[trigger] p[k] == order@[k] as int,
                forall|k: int| 0 <= k < i ==> 0 <= #[trigger] p[k] < i,
                forall|k: int| 0 <= k < i ==> #[trigger] order@[k] < i,
                pos <= i,
                forall|k: int| 0 <= k < pos ==> !bytes_lt(name_key(categories@[i as int]), name_key(categories@[#[trigger] p[k]])),
                insert_pos(categories@, p, i as int) == pos + insert_pos(categories@, p.skip(pos as int), i as int),
            decreases i - pos,
        {
            proof {
                assert(p.skip(pos as int).skip(1) =~= p.skip(pos + 1));
                assert(p.skip(pos as int)[0] == p[pos as int]);
            }
            pos = pos + 1;
        }
        proof {
            if pos < i {
                assert(p.skip(pos as int)[0] == p[pos as int]);
            }
            assert(insert_pos(categories@, p, i as int) == pos);
        }
        proof {
            lemma_insert_keeps_display_order(categories@, p, i as int, pos as int);
            p = p.insert(pos as int, i as int);
        }
        order.insert(pos, i);
        i = i + 1;
    }
    assert(order@.map_values(|x: usize| x as int) =~= p);
    order
}

/// Sorts categories for display: by lower-cased name, ties kept in list order.
pub fn sort_for_display(categories: &Vec<Category>) -> (r: Vec<Category>)
    ensures
        r@.len() == categories@.len(),
        sorted_for_display(r@, categories@),
        r@ == display_sorted(categories@),
{
    let n = categories.len();
    let order = display_permutation(categories);
    let ghost p = order@.map_values(|x: usize| x as int);
    let mut out: Vec<Category> = Vec::new();
    let mut k: usize = 0;
    while k < n
        invariant
            n == categories@.len(),
            order@.len() == n,
            p == order@.map_values(|x: usize| x as int),
            display_order(categories@, p),
            k <= n,
            out@.len() == k,
            forall|m: int| 0 <= m < k ==> (#[trigger] out@[m]) == categories@[p[m]],
        decreases n - k,
    {
        let idx = order[k];
        assert(p[k as int] == idx as int);
        out.push(copy_category(&categories[idx]));
        k = k + 1;
    }
    assert(p.len() == categories@.len() && display_order(categories@, p) && forall|m: int|
        0 <= m < out@.len() ==> out@[m] == categories@[#[trigger] p[m]]);
    assert(out@ =~= display_sorted(categories@));
    out
}

/// Shown-before is a strict order: no category is shown before itself.
pub proof fn lemma_shown_before_irreflexive(cats: Seq<Category>, i: int)
    ensures
        !shown_before(cats, i, i),
{
    lemma_bytes_lt_irreflexive(name_key(cats[i]));
}


// ---------------------------------------------------------------- the forest

/// A category tree as a mathematical value.
pub struct CatTree {
    pub category: Category,
    pub kids: Seq<CatTree>,
}

/// Whether an executable tree node is the tree `t`.
pub open spec fn node_matches(n: CategoryTreeNode, t: CatTree) -> bool
    decreases n,
{
    &&& n.category == t.category
    &&& n.children@.len() == t.kids.len()
    &&& forall|k: int| 0 <= k < t.kids.len() ==> node_matches(#[trigger] n.children@[k], t.kids[k])
}

/// Whether executable nodes are the trees `ts`, one for one.
pub open spec fn nodes_match(ns: Seq<CategoryTreeNode>, ts: Seq<CatTree>) -> bool {
    &&& ns.len() == ts.len()
    &&& forall|k: int| 0 <= k < ts.len() ==> node_matches(#[trigger] ns[k], ts[k])
}

/// The IDs held by a list of strings.
pub open spec fn ids_view(taken: Seq<String>) -> Seq<Seq<char>> {
    taken.map_values(|x: String| x@)
}

/// The subtree of `c` and the IDs whose listed categories are taken once it is built. The
/// categories listed under `c` are taken the first time its ID is met, and shown in display
/// order, each with its own subtree; met again, or `fuel` levels down, `c` is a leaf.
pub open spec fn tree_of(c: Category, all: Seq<Category>, taken: Seq<Seq<char>>, fuel: nat) -> (CatTree, Seq<Seq<char>>)
    decreases fuel, 0nat, 0nat,
{
    if fuel == 0 || taken.contains(c.id@) {
        (CatTree { category: c, kids: Seq::empty() }, taken)
    } else {
        let r = trees_of(
            display_sorted(listed_under(all, c.id@)),
            all,
            taken.push(c.id@),
            (fuel - 1) as nat,
        );
        (CatTree { category: c, kids: r.0 }, r.1)
    }
}

/// The subtrees of the categories of `list`, built in turn.
pub open spec fn trees_of(list: Seq<Category>, all: Seq<Category>, taken: Seq<Seq<char>>, fuel: nat) -> (
    Seq<CatTree>,
    Seq<Seq<char>>,
)
    decreases fuel, 1nat, list.len(),
{
    if list.len() == 0 {
        (Seq::empty(), taken)
    } else {
        let first = tree_of(list[0], all, taken, fuel);
        let rest = trees_of(list.skip(1), all, first.1, fuel);
        (seq![first.0] + rest.0, rest.1)
    }
}

/// The subtrees of the categories never reached from a root: going through `cands` in list
/// order, the categories listed under the parent of each non-root whose ID is not yet taken
/// are taken at once, each shown (in list order) with its subtree.
pub open spec fn stranded_trees(cands: Seq<Category>, all: Seq<Category>, taken: Seq<Seq<char>>, fuel: nat) -> (
    Seq<CatTree>,
    Seq<Seq<char>>,
)
    decreases cands.len(),
{
    if cands.len() == 0 {
        (Seq::empty(), taken)
    } else {
        let prev = stranded_trees(cands.drop_last(), all, taken, fuel);
        let c = cands.last();
        if is_tree_root(c, all) {
            prev
        } else {
            match c.parent_id {
                Some(p) => if prev.1.contains(p@) {
                    prev
                } else {
                    let r = trees_of(listed_under(all, p@), all, prev.1.push(p@), fuel);
                    (prev.0 + r.0, r.1)
                },
                None => prev,
            }
        }
    }
}

/// The top-level trees before their final ordering: the roots in display order with their
/// subtrees, then the trees of the categories never reached from a root.
pub open spec fn unordered_forest(all: Seq<Category>) -> Seq<CatTree> {
    let a = trees_of(display_sorted(roots_among(all, all)), all, Seq::empty(), all.len());
    let b = stranded_trees(all, all, a.1, all.len());
    a.0 + b.0
}

/// The categories at the top of trees.
pub open spec fn tops(ts: Seq<CatTree>) -> Seq<Category> {
    ts.map_values(|t: CatTree| t.category)
}

/// The category forest: the top-level trees in display order of their categories.
pub open spec fn category_forest(all: Seq<Category>) -> Seq<CatTree> {
    let u = unordered_forest(all);
    display_indices(tops(u), u.len()).map_values(|i: int| u[i])
}

fn taken_has(taken: &Vec<String>, id: &str) -> (r: bool)
    ensures
        r == ids_view(taken@).contains(id@),
{
    let mut i: usize = 0;
    while i < taken.len()
        invariant
            i <= taken@.len(),
            forall|k: int| 0 <= k < i ==> (#[trigger] taken@[k])@ != id@,
        decreases taken.len() - i,
    {
        if str_eq(taken[i].as_str(), id) {
            assert(ids_view(taken@)[i as int] == id@);
            return true;
        }
        i = i + 1;
    }
    proof {
        if ids_view(taken@).contains(id@) {
            let k = choose|k: int| 0 <= k < ids_view(taken@).len() && ids_view(taken@)[k] == id@;
            assert(taken@[k]@ == id@);
        }
    }
    false
}

fn take_id(taken: &mut Vec<String>, id: &str)
    ensures
        ids_view(final(taken)@) == ids_view(old(taken)@).push(id@),
{
    taken.push(id.to_string());
    assert(ids_view(taken@) =~= ids_view(old(taken)@).push(id@));
}

/// The subtree of `c` (see `tree_of`).
fn build_node(c: Category, all: &Vec<Category>, taken: &mut Vec<String>, fuel: usize) -> (n: CategoryTreeNode)
    ensures
        node_matches(n, tree_of(c, all@, ids_view(old(taken)@), fuel as nat).0),
        ids_view(final(taken)@) == tree_of(c, all@, ids_view(old(taken)@), fuel as nat).1,
    decreases fuel, 0nat,
{
    if fuel == 0 || taken_has(taken, c.id.as_str()) {
        let n = CategoryTreeNode { category: c, children: Vec::new() };
        assert(node_matches(n, tree_of(c, all@, ids_view(old(taken)@), fuel as nat).0));
        return n;
    }
    take_id(taken, c.id.as_str());
    let kids = sort_for_display(&children_listed_under(all, c.id.as_str()));
    let children = build_list(&kids, all, taken, fuel - 1);
    CategoryTreeNode { category: c, children }
}

/// The subtrees of the categories of `list`, built in turn (see `trees_of`).
fn build_list(list: &Vec<Category>, all: &Vec<Category>, taken: &mut Vec<String>, fuel: usize) -> (r: Vec<CategoryTreeNode>)
    ensures
        nodes_match(r@, trees_of(list@, all@, ids_view(old(taken)@), fuel as nat).0),
        ids_view(final(taken)@) == trees_of(list@, all@, ids_view(old(taken)@), fuel as nat).1,
    decreases fuel, 1nat,
{
    let ghost whole = trees_of(list@, all@, ids_view(taken@), fuel as nat);
    let ghost mut done: Seq<CatTree> = Seq::empty();
    let mut out: Vec<CategoryTreeNode> = Vec::new();
    let mut k: usize = 0;
    assert(list@.skip(0) =~= list@);
    while k < list.len()
        invariant
            k <= list@.len(),
            whole == trees_of(list@, all@, ids_view(old(taken)@), fuel as nat),
            whole.0 == done + trees_of(list@.skip(k as int), all@, ids_view(taken@), fuel as nat).0,
            whole.1 == trees_of(list@.skip(k as int), all@, ids_view(taken@), fuel as nat).1,
            nodes_match(out@, done),
        decreases list.len() - k,
    {
        let ghost before = ids_view(taken@);
        let ghost rest = list@.skip(k as int);
        proof {
            assert(rest[0] == list@[k as int]);
            assert(rest.skip(1) =~= list@.skip(k + 1));
        }
        let node = build_node(copy_category(&list[k]), all, taken, fuel);
        proof {
            let first = tree_of(list@[k as int], all@, before, fuel as nat);
            let tail = trees_of(list@.skip(k + 1), all@, first.1, fuel as nat);
            assert(done + trees_of(rest, all@, before, fuel as nat).0 =~= done.push(first.0) + tail.0);
            done = done.push(first.0);
        }
        out.push(node);
        k = k + 1;
    }
    proof {
        assert(list@.skip(k as int) =~= Seq::<Category>::empty());
        assert(done + Seq::<CatTree>::empty() =~= done);
    }
    out
}

fn tops_of(nodes: &Vec<CategoryTreeNode>) -> (r: Vec<Category>)
    ensures
        r@ == nodes@.map_values(|n: CategoryTreeNode| n.category),
{
    let mut out: Vec<Category> = Vec::new();
    let mut i: usize = 0;
    while i < nodes.len()
        invariant
            i <= nodes@.len(),
            out@ == nodes@.take(i as int).map_values(|n: CategoryTreeNode| n.category),
        decreases nodes.len() - i,
    {
        out.push(copy_category(&nodes[i].category));
        i = i + 1;
        assert(out@ =~= nodes@.take(i as int).map_values(|n: CategoryTreeNode| n.category));
    }
    assert(nodes@.take(i as int) =~= nodes@);
    out
}

/// The trees of the categories never reached from a root (see `stranded_trees`).
fn build_stranded(all: &Vec<Category>, taken: &mut Vec<String>, fuel: usize) -> (r: Vec<CategoryTreeNode>)
    ensures
        nodes_match(r@, stranded_trees(all@, all@, ids_view(old(taken)@), fuel as nat).0),
        ids_view(final(taken)@) == stranded_trees(all@, all@, ids_view(old(taken)@), fuel as nat).1,
{
    let ghost t0 = ids_view(taken@);
    let ghost mut done: Seq<CatTree> = Seq::empty();
    let mut out: Vec<CategoryTreeNode> = Vec::new();
    let mut i: usize = 0;
    while i < all.len()
        invariant
            i <= all@.len(),
            t0 == ids_view(old(taken)@),
            done == stranded_trees(all@.take(i as int), all@, t0, fuel as nat).0,
            ids_view(taken@) == stranded_trees(all@.take(i as int), all@, t0, fuel as nat).1,
            nodes_match(out@, done),
        decreases all.len() - i,
    {
        proof {
            assert(all@.take(i + 1).drop_last() =~= all@.take(i as int));
            assert(all@.take(i + 1).last() == all@[i as int]);
        }
        let c = &all[i];
        match &c.parent_id {
            None => {},
            Some(p) => {
                if lists(all, p.as_str()) && !taken_has(taken, p.as_str()) {
                    let ghost before = ids_view(taken@);
                    take_id(taken, p.as_str());
                    let group = children_listed_under(all, p.as_str());
                    let mut nodes = build_list(&group, all, taken, fuel);
                    let ghost added = trees_of(listed_under(all@, p@), all@, before.push(p@), fuel as nat).0;
                    let ghost old_out = out@;
                    let ghost old_nodes = nodes@;
                    out.append(&mut nodes);
                    proof {
                        assert forall|k: int| 0 <= k < (done + added).len() implies node_matches(
                            #[trigger] out@[k],
                            (done + added)[k],
                        ) by {
                            if k < old_out.len() {
                                assert(out@[k] == old_out[k]);
                            } else {
                                assert(out@[k] == old_nodes[k - old_out.len()]);
                            }
                        }
                        done = done + added;
                    }
                }
            },
        }
        i = i + 1;
    }
    assert(all@.take(i as int) =~= all@);
    out
}

/// `nodes` rearranged so that place `k` holds the node at `perm[k]`.
fn rearrange(nodes: Vec<CategoryTreeNode>, perm: &Vec<usize>) -> (r: Vec<CategoryTreeNode>)
    requires
        perm@.len() == nodes@.len(),
        forall|k: int| 0 <= k < perm@.len() ==> #[trigger] perm@[k] < nodes@.len(),
        forall|k: int, l: int| 0 <= k < l < perm@.len() ==> #[trigger] perm@[k] != #[trigger] perm@[l],
    ensures
        r@.len() == perm@.len(),
        forall|k: int| 0 <= k < perm@.len() ==> #[trigger] r@[k] == nodes@[perm@[k] as int],
{
    let n = nodes.len();
    let ghost orig = nodes@;
    let mut src = nodes;
    let mut slots: Vec<Option<CategoryTreeNode>> = Vec::new();
    while src.len() > 0
        invariant
            orig.len() == n,
            src@.len() + slots@.len() == n,
            src@ == orig.take(src@.len() as int),
            forall|j: int| 0 <= j < slots@.len() ==> #[trigger] slots@[j] == Some(orig[n - 1 - j]),
        decreases src.len(),
    {
        let ghost before = src@;
        match src.pop() {
            Some(x) => {
                slots.push(Some(x));
            },
            None => {},
        }
        assert(src@ =~= orig.take(src@.len() as int));
    }
    let mut out: Vec<CategoryTreeNode> = Vec::new();
    let mut k: usize = 0;
    while k < n
        invariant
            orig.len() == n,
            perm@.len() == n,
            slots@.len() == n,
            forall|m: int| 0 <= m < n ==> #[trigger] perm@[m] < n,
            forall|a: int, b: int| 0 <= a < b < n ==> #[trigger] perm@[a] != #[trigger] perm@[b],
            k <= n,
            out@.len() == k,
            forall|m: int| 0 <= m < k ==> #[trigger] out@[m] == orig[perm@[m] as int],
            forall|j: int|
                0 <= j < n ==> (#[trigger] slots@[j] is None) == (exists|m: int|
                    0 <= m < k && perm@[m] == n - 1 - j),
            forall|j: int| 0 <= j < n ==> (#[trigger] slots@[j] matches Some(x) ==> x == orig[n - 1 - j]),
        decreases n - k,
    {
        let j = n - 1 - perm[k];
        proof {
            if slots@[j as int] is None {
                let m = choose|m: int| 0 <= m < k && perm@[m] == n - 1 - j;
                assert(perm@[m] != perm@[k as int]);
            }
        }
        let taken = slots[j].take();
        match taken {
            Some(x) => {
                out.push(x);
            },
            None => {},
        }
        proof {
            assert forall|jj: int| 0 <= jj < n implies (#[trigger] slots@[jj] is None) == (exists|m: int|
                0 <= m < k + 1 && perm@[m] == n - 1 - jj) by {
                if jj == j {
                    assert(perm@[k as int] == n - 1 - jj);
                } else {
                    if exists|m: int| 0 <= m < k + 1 && perm@[m] == n - 1 - jj {
                        let m = choose|m: int| 0 <= m < k + 1 && perm@[m] == n - 1 - jj;
                        assert(m != k);
                    }
                }
            }
        }
        k = k + 1;
    }
    out
}

/// Builds the category forest of the listed categories (see `category_forest`): root
/// categories in display order with their subtrees, the categories never reached from a
/// root as further top-level trees, and the top level ordered for display.
pub fn build_category_forest(all: &Vec<Category>) -> (r: Vec<CategoryTreeNode>)
    ensures
        nodes_match(r@, category_forest(all@)),
{
    let n = all.len();
    let mut taken: Vec<String> = Vec::new();
    assert(ids_view(taken@) =~= Seq::<Seq<char>>::empty());
    let roots = sort_for_display(&tree_roots(all));
    let mut top = build_list(&roots, all, &mut taken, n);
    let ghost a = trees_of(display_sorted(roots_among(all@, all@)), all@, Seq::empty(), n as nat);
    let mut rest = build_stranded(all, &mut taken, n);
    let ghost b = stranded_trees(all@, all@, a.1, n as nat);
    let ghost top_before = top@;
    let ghost rest_before = rest@;
    top.append(&mut rest);
    let ghost u = unordered_forest(all@);
    assert(u == a.0 + b.0);
    assert(nodes_match(top@, u)) by {
        assert forall|k: int| 0 <= k < u.len() implies node_matches(#[trigger] top@[k], u[k]) by {
            if k < top_before.len() {
                assert(top@[k] == top_before[k]);
            } else {
                assert(top@[k] == rest_before[k - top_before.len()]);
            }
        }
    }
    let cats = tops_of(&top);
    assert(cats@ =~= tops(u)) by {
        assert forall|k: int| 0 <= k < u.len() implies cats@[k] == tops(u)[k] by {
            assert(node_matches(top@[k], u[k]));
        }
    }
    let perm = display_permutation(&cats);
    let ghost p = perm@.map_values(|x: usize| x as int);
    proof {
        assert forall|k: int, l: int| 0 <= k < l < perm@.len() implies #[trigger] perm@[k] != #[trigger] perm@[l] by {
            assert(shown_before(cats@, p[k], p[l]));
            if perm@[k] == perm@[l] {
                lemma_shown_before_irreflexive(cats@, p[k]);
            }
        }
        assert forall|k: int| 0 <= k < perm@.len() implies #[trigger] perm@[k] < top@.len() by {
            assert(0 <= p[k] < cats@.len());
        }
    }
    let out = rearrange(top, &perm);
    proof {
        let f = category_forest(all@);
        assert(p == display_indices(tops(u), u.len()));
        assert forall|k: int| 0 <= k < f.len() implies node_matches(#[trigger] out@[k], f[k]) by {
            assert(f[k] == u[p[k]]);
            assert(out@[k] == top@[perm@[k] as int]);
        }
    }
    out
}

} // verus!
