//! The category forest is complete: every listed category is shown in it.
use super::tree::{
    category_forest, display_indices, display_sorted, insert_pos, is_tree_root, listed_under,
    roots_among, stranded_trees, tops, tree_of, trees_of, unordered_forest, CatTree,
};
use super::Category;
use vstd::prelude::*;

verus! {

/// Whether the category `c` is shown somewhere in the tree `t`.
pub open spec fn tree_has(t: CatTree, c: Category) -> bool
    decreases t,
{
    t.category == c || exists|k: int| 0 <= k < t.kids.len() && tree_has(#[trigger] t.kids[k], c)
}

/// Whether the category `c` is shown somewhere in the trees `ts`.
pub open spec fn forest_has(ts: Seq<CatTree>, c: Category) -> bool {
    exists|j: int| 0 <= j < ts.len() && tree_has(#[trigger] ts[j], c)
}

/// `insert_pos` is a place within the ordered indices.
proof fn lemma_insert_pos_range(cats: Seq<Category>, p: Seq<int>, i: int)
    ensures
        0 <= insert_pos(cats, p, i) <= p.len(),
    decreases p.len(),
{
    if p.len() > 0 {
        lemma_insert_pos_range(cats, p.skip(1), i);
    }
}

/// The display order of the first `n` categories lists every index below `n`.
proof fn lemma_display_indices_cover(cats: Seq<Category>, n: nat)
    ensures
        display_indices(cats, n).len() == n,
        forall|i: int| 0 <= i < n ==> #[trigger] display_indices(cats, n).contains(i),
    decreases n,
{
    if n > 0 {
        let m = (n - 1) as nat;
        lemma_display_indices_cover(cats, m);
        let p = display_indices(cats, m);
        let pos = insert_pos(cats, p, n - 1);
        lemma_insert_pos_range(cats, p, n - 1);
        p.insert_ensures(pos, n - 1);
        let q = p.insert(pos, n - 1);
        assert(q == display_indices(cats, n));
        assert forall|i: int| 0 <= i < n implies #[trigger] q.contains(i) by {
            if i == n - 1 {
                assert(q[pos] == i);
            } else {
                assert(p.contains(i));
                let j = choose|j: int| 0 <= j < p.len() && p[j] == i;
                if j < pos {
                    assert(q[j] == i);
                } else {
                    assert(q[j + 1] == i);
                }
            }
        }
    }
}

/// Every listed category is among the same categories in display order.
proof fn lemma_display_sorted_has(cats: Seq<Category>, c: Category)
    requires
        cats.contains(c),
    ensures
        display_sorted(cats).contains(c),
        display_sorted(cats).len() == cats.len(),
{
    lemma_display_indices_cover(cats, cats.len());
    let p = display_indices(cats, cats.len());
    let i = choose|i: int| 0 <= i < cats.len() && cats[i] == c;
    assert(p.contains(i));
    let j = choose|j: int| 0 <= j < p.len() && p[j] == i;
    assert(display_sorted(cats)[j] == c);
}

/// A listed category whose parent has the ID `id` is listed under `id`.
proof fn lemma_listed_under_has(cats: Seq<Category>, id: Seq<char>, c: Category)
    requires
        cats.contains(c),
        c.parent_id matches Some(p) && p@ == id,
    ensures
        listed_under(cats, id).contains(c),
    decreases cats.len(),
{
    if cats.last() == c {
        assert(listed_under(cats, id).last() == c);
    } else {
        let i = choose|i: int| 0 <= i < cats.len() && cats[i] == c;
        assert(cats.drop_last()[i] == c);
        lemma_listed_under_has(cats.drop_last(), id, c);
        let l = listed_under(cats.drop_last(), id);
        let j = choose|j: int| 0 <= j < l.len() && l[j] == c;
        if cats.last().parent_id matches Some(q) && q@ == id {
            assert(listed_under(cats, id)[j] == c);
        }
    }
}

/// A listed root is among the roots.
proof fn lemma_roots_among_has(cats: Seq<Category>, all: Seq<Category>, c: Category)
    requires
        cats.contains(c),
        is_tree_root(c, all),
    ensures
        roots_among(cats, all).contains(c),
    decreases cats.len(),
{
    if cats.last() == c {
        assert(roots_among(cats, all).last() == c);
    } else {
        let i = choose|i: int| 0 <= i < cats.len() && cats[i] == c;
        assert(cats.drop_last()[i] == c);
        lemma_roots_among_has(cats.drop_last(), all, c);
        let l = roots_among(cats.drop_last(), all);
        let j = choose|j: int| 0 <= j < l.len() && l[j] == c;
        if is_tree_root(cats.last(), all) {
            assert(roots_among(cats, all)[j] == c);
        }
    }
}

/// An ID in `t.push(x)` that is not in `t` is `x`.
proof fn lemma_pushed_new(t: Seq<Seq<char>>, x: Seq<char>, id: Seq<char>)
    requires
        t.push(x).contains(id),
        !t.contains(id),
    ensures
        id == x,
{
    let i = choose|i: int| 0 <= i < t.push(x).len() && t.push(x)[i] == id;
    if i < t.len() {
        assert(t[i] == id);
    }
}

/// Building the subtree of `c` keeps the IDs already taken, puts `c` at its top, and shows
/// every category listed under an ID that it newly takes.
proof fn lemma_tree_of_complete(c: Category, all: Seq<Category>, taken: Seq<Seq<char>>, fuel: nat)
    ensures
        tree_of(c, all, taken, fuel).0.category == c,
        forall|id: Seq<char>| #[trigger] taken.contains(id) ==> tree_of(c, all, taken, fuel).1.contains(id),
        forall|id: Seq<char>, k: Category|
            #![trigger tree_of(c, all, taken, fuel).1.contains(id), listed_under(all, id).contains(k)]
            tree_of(c, all, taken, fuel).1.contains(id) && !taken.contains(id) && listed_under(all, id).contains(k)
                ==> tree_has(tree_of(c, all, taken, fuel).0, k),
    decreases fuel, 0nat, 0nat,
{
    if fuel == 0 || taken.contains(c.id@) {
    } else {
        let kids_list = display_sorted(listed_under(all, c.id@));
        let t1 = taken.push(c.id@);
        let f1 = (fuel - 1) as nat;
        lemma_trees_of_complete(kids_list, all, t1, f1);
        let r = trees_of(kids_list, all, t1, f1);
        let t = tree_of(c, all, taken, fuel);
        assert(t.0 == CatTree { category: c, kids: r.0 });
        assert(t.1 == r.1);
        assert forall|id: Seq<char>| #[trigger] taken.contains(id) implies t.1.contains(id) by {
            let i = choose|i: int| 0 <= i < taken.len() && taken[i] == id;
            assert(t1[i] == id);
            assert(t1.contains(id));
        }
        assert forall|id: Seq<char>, k: Category|
            #![trigger t.1.contains(id), listed_under(all, id).contains(k)]
            t.1.contains(id) && !taken.contains(id) && listed_under(all, id).contains(k) implies tree_has(t.0, k) by {
            if t1.contains(id) {
                lemma_pushed_new(taken, c.id@, id);
                lemma_display_sorted_has(listed_under(all, id), k);
                let j = choose|j: int| 0 <= j < kids_list.len() && kids_list[j] == k;
                assert(r.0[j].category == k);
                assert(tree_has(r.0[j], k));
                assert(t.0.kids[j] == r.0[j]);
            } else {
                assert(r.1.contains(id) && listed_under(all, id).contains(k));
                assert(forest_has(r.0, k));
                let j = choose|j: int| 0 <= j < r.0.len() && tree_has(#[trigger] r.0[j], k);
                assert(t.0.kids[j] == r.0[j]);
            }
        }
    }
}

/// Building the subtrees of `list` in turn keeps the IDs already taken, puts the listed
/// categories at their tops, and shows every category listed under an ID newly taken.
proof fn lemma_trees_of_complete(list: Seq<Category>, all: Seq<Category>, taken: Seq<Seq<char>>, fuel: nat)
    ensures
        trees_of(list, all, taken, fuel).0.len() == list.len(),
        forall|j: int| 0 <= j < list.len() ==> (#[trigger] trees_of(list, all, taken, fuel).0[j]).category == list[j],
        forall|id: Seq<char>| #[trigger] taken.contains(id) ==> trees_of(list, all, taken, fuel).1.contains(id),
        forall|id: Seq<char>, k: Category|
            #![trigger trees_of(list, all, taken, fuel).1.contains(id), listed_under(all, id).contains(k)]
            trees_of(list, all, taken, fuel).1.contains(id) && !taken.contains(id) && listed_under(all, id).contains(k)
                ==> forest_has(trees_of(list, all, taken, fuel).0, k),
    decreases fuel, 1nat, list.len(),
{
    if list.len() > 0 {
        lemma_tree_of_complete(list[0], all, taken, fuel);
        let first = tree_of(list[0], all, taken, fuel);
        lemma_trees_of_complete(list.skip(1), all, first.1, fuel);
        let rest = trees_of(list.skip(1), all, first.1, fuel);
        let r = trees_of(list, all, taken, fuel);
        assert(r.0 == seq![first.0] + rest.0);
        assert(r.1 == rest.1);
        assert forall|j: int| 0 <= j < list.len() implies (#[trigger] r.0[j]).category == list[j] by {
            if j > 0 {
                assert(r.0[j] == rest.0[j - 1]);
                assert(list.skip(1)[j - 1] == list[j]);
            }
        }
        assert forall|id: Seq<char>| #[trigger] taken.contains(id) implies r.1.contains(id) by {
            assert(first.1.contains(id));
        }
        assert forall|id: Seq<char>, k: Category|
            #![trigger r.1.contains(id), listed_under(all, id).contains(k)]
            r.1.contains(id) && !taken.contains(id) && listed_under(all, id).contains(k) implies forest_has(r.0, k) by {
            if first.1.contains(id) {
                assert(tree_has(first.0, k));
                assert(r.0[0] == first.0);
            } else {
                assert(forest_has(rest.0, k));
                let j = choose|j: int| 0 <= j < rest.0.len() && tree_has(#[trigger] rest.0[j], k);
                assert(r.0[j + 1] == rest.0[j]);
            }
        }
    }
}

/// The pass over categories never reached from a root keeps the IDs already taken, shows
/// every category listed under an ID that it newly takes, and ends with the parent of every
/// non-root candidate taken.
proof fn lemma_stranded_complete(cands: Seq<Category>, all: Seq<Category>, taken: Seq<Seq<char>>, fuel: nat)
    ensures
        forall|id: Seq<char>| #[trigger] taken.contains(id) ==> stranded_trees(cands, all, taken, fuel).1.contains(id),
        forall|id: Seq<char>, k: Category|
            #![trigger stranded_trees(cands, all, taken, fuel).1.contains(id), listed_under(all, id).contains(k)]
            stranded_trees(cands, all, taken, fuel).1.contains(id) && !taken.contains(id) && listed_under(all, id).contains(k)
                ==> forest_has(stranded_trees(cands, all, taken, fuel).0, k),
        forall|c: Category|
            #[trigger] cands.contains(c) && !is_tree_root(c, all) ==> (c.parent_id matches Some(p)
                && stranded_trees(cands, all, taken, fuel).1.contains(p@)),
    decreases cands.len(),
{
    if cands.len() > 0 {
        let prev_c = cands.drop_last();
        lemma_stranded_complete(prev_c, all, taken, fuel);
        let prev = stranded_trees(prev_c, all, taken, fuel);
        let c = cands.last();
        let r = stranded_trees(cands, all, taken, fuel);
        // a candidate is the last one or one of the earlier ones
        assert forall|d: Category| #[trigger] cands.contains(d) && d != c implies prev_c.contains(d) by {
            let i = choose|i: int| 0 <= i < cands.len() && cands[i] == d;
            assert(prev_c[i] == d);
        }
        if is_tree_root(c, all) {
            assert(r == prev);
        } else {
            let p = c.parent_id->0;
            if prev.1.contains(p@) {
                assert(r == prev);
            } else {
                let t1 = prev.1.push(p@);
                let group = listed_under(all, p@);
                lemma_trees_of_complete(group, all, t1, fuel);
                let rr = trees_of(group, all, t1, fuel);
                assert(r.0 == prev.0 + rr.0);
                assert(r.1 == rr.1);
                assert forall|id: Seq<char>| #[trigger] prev.1.contains(id) implies r.1.contains(id) by {
                    let i = choose|i: int| 0 <= i < prev.1.len() && prev.1[i] == id;
                    assert(t1[i] == id);
                    assert(t1.contains(id));
                }
                assert(t1[prev.1.len() as int] == p@);
                assert(t1.contains(p@));
                assert forall|id: Seq<char>, k: Category|
                    #![trigger r.1.contains(id), listed_under(all, id).contains(k)]
                    r.1.contains(id) && !taken.contains(id) && listed_under(all, id).contains(k) implies forest_has(r.0, k) by {
                    if prev.1.contains(id) {
                        assert(forest_has(prev.0, k));
                        let j = choose|j: int| 0 <= j < prev.0.len() && tree_has(#[trigger] prev.0[j], k);
                        assert(r.0[j] == prev.0[j]);
                    } else if t1.contains(id) {
                        lemma_pushed_new(prev.1, p@, id);
                        let j = choose|j: int| 0 <= j < group.len() && group[j] == k;
                        assert(rr.0[j].category == k);
                        assert(tree_has(rr.0[j], k));
                        assert(r.0[prev.0.len() + j] == rr.0[j]);
                    } else {
                        assert(forest_has(rr.0, k));
                        let j = choose|j: int| 0 <= j < rr.0.len() && tree_has(#[trigger] rr.0[j], k);
                        assert(r.0[prev.0.len() + j] == rr.0[j]);
                    }
                }
            }
        }
        assert forall|d: Category| #[trigger] cands.contains(d) && !is_tree_root(d, all) implies (d.parent_id matches Some(q)
            && r.1.contains(q@)) by {
            if d != c {
                assert(prev_c.contains(d));
                let q = d.parent_id->0;
                assert(prev.1.contains(q@));
            }
        }
    }
}

/// Every listed category is shown in the category forest: a root at the top of its own
/// tree, any other category under its parent, including the categories never reached from
/// a root.
pub proof fn lemma_category_forest_complete(all: Seq<Category>, c: Category)
    requires
        all.contains(c),
    ensures
        forest_has(category_forest(all), c),
{
    let n = all.len();
    let roots = display_sorted(roots_among(all, all));
    let none = Seq::<Seq<char>>::empty();
    lemma_trees_of_complete(roots, all, none, n);
    let a = trees_of(roots, all, none, n);
    lemma_stranded_complete(all, all, a.1, n);
    let b = stranded_trees(all, all, a.1, n);
    let u = unordered_forest(all);
    assert(u == a.0 + b.0);
    // the tree of `u` that shows `c`
    let at: int;
    if is_tree_root(c, all) {
        lemma_roots_among_has(all, all, c);
        lemma_display_sorted_has(roots_among(all, all), c);
        let j = choose|j: int| 0 <= j < roots.len() && roots[j] == c;
        assert(a.0[j].category == c);
        assert(tree_has(a.0[j], c));
        assert(u[j] == a.0[j]);
        at = j;
    } else {
        let p = c.parent_id->0;
        assert(b.1.contains(p@));
        lemma_listed_under_has(all, p@, c);
        if a.1.contains(p@) {
            assert(!none.contains(p@));
            assert(forest_has(a.0, c));
            let j = choose|j: int| 0 <= j < a.0.len() && tree_has(#[trigger] a.0[j], c);
            assert(u[j] == a.0[j]);
            at = j;
        } else {
            assert(forest_has(b.0, c));
            let j = choose|j: int| 0 <= j < b.0.len() && tree_has(#[trigger] b.0[j], c);
            assert(u[a.0.len() + j] == b.0[j]);
            at = a.0.len() + j;
        }
    }
    assert(0 <= at < u.len() && tree_has(u[at], c));
    let order = display_indices(tops(u), u.len());
    lemma_display_indices_cover(tops(u), u.len());
    assert(order.contains(at));
    let m = choose|m: int| 0 <= m < order.len() && order[m] == at;
    let f = category_forest(all);
    assert(f == order.map_values(|i: int| u[i]));
    assert(f[m] == u[at]);
}

} // verus!
