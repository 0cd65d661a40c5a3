//! Level-order traversal of a node tree. The walker keeps a first-in,
//! first-out frontier of `(node, depth)` pairs: each step takes the oldest
//! pair, queues the node's children one level deeper, and hands the pair out.
//! Nodes therefore come out breadth-first, each level from left to right.
use vstd::prelude::*;
use std::collections::VecDeque;
use crate::node::{Node, children_of, derefs};

verus! {

/// The depth of a node's children; depths stop growing at `usize::MAX`, a
/// nesting that no tree held in memory reaches.
pub open spec fn child_depth(d: usize) -> usize {
    if d < usize::MAX {
        (d + 1) as usize
    } else {
        d
    }
}

/// The frontier entries for the children of `n`, found at depth `d`.
pub open spec fn child_entries(n: Node, d: usize) -> Seq<(Node, usize)> {
    children_of(n.data).map_values(|c: Node| (c, child_depth(d)))
}

/// The frontier after one step from the non-empty frontier `q`.
pub open spec fn step_queue(q: Seq<(Node, usize)>) -> Seq<(Node, usize)> {
    q.drop_first() + child_entries(q[0].0, q[0].1)
}

/// The first `k` pairs a walk from frontier `q` hands out.
pub open spec fn emissions(q: Seq<(Node, usize)>, k: nat) -> Seq<(Node, usize)>
    decreases k,
{
    if k == 0 || q.len() == 0 {
        Seq::empty()
    } else {
        seq![q[0]] + emissions(step_queue(q), (k - 1) as nat)
    }
}

/// A lazy walk over a tree, yielding `(node, depth)` pairs with the root at
/// depth 0.
pub struct WalkIterator<'a> {
    queue: VecDeque<(&'a Node, usize)>,
}

pub open spec fn entry_value(e: (&Node, usize)) -> (Node, usize) {
    (*e.0, e.1)
}

impl<'a> WalkIterator<'a> {
    /// The frontier: the pairs still to be handed out, oldest first.
    pub closed spec fn frontier(&self) -> Seq<(Node, usize)> {
        self.queue@.map_values(|e: (&Node, usize)| entry_value(e))
    }

    /// A walk that starts at `root`, at depth 0.
    pub fn new(root: &'a Node) -> (r: WalkIterator<'a>)
        ensures
            r.frontier() == seq![(*root, 0usize)],
    {
        let mut queue: VecDeque<(&'a Node, usize)> = VecDeque::new();
        queue.push_back((root, 0));
        let r = WalkIterator { queue };
        proof {
            assert(r.frontier() =~= seq![(*root, 0usize)]);
        }
        r
    }

    /// Hands out the oldest pending pair and queues its node's children one
    /// level deeper; `None` once the walk is done.
    pub fn next(&mut self) -> (r: Option<(&'a Node, usize)>)
        ensures
            old(self).frontier().len() == 0 ==> r is None && final(self).frontier() == old(
                self,
            ).frontier(),
            old(self).frontier().len() > 0 ==> r is Some && entry_value(r.unwrap()) == old(
                self,
            ).frontier()[0] && final(self).frontier() == step_queue(old(self).frontier()),
    {
        match self.queue.pop_front() {
            None => None,
            Some((node, depth)) => {
                let ghost rest = self.frontier();
                proof {
                    assert(rest =~= old(self).frontier().drop_first());
                }
                let children = node.children();
                let d = if depth < usize::MAX {
                    depth + 1
                } else {
                    depth
                };
                let ghost kids = child_entries(*node, depth);
                let mut i: usize = 0;
                while i < children.len()
                    invariant
                        i <= children.len(),
                        derefs(children@) == children_of(node.data),
                        d == child_depth(depth),
                        kids == child_entries(*node, depth),
                        self.frontier() == rest + kids.subrange(0, i as int),
                    decreases children.len() - i,
                {
                    let ghost before = self.frontier();
                    self.queue.push_back((children[i], d));
                    proof {
                        assert(derefs(children@)[i as int] == *children@[i as int]);
                        assert(self.frontier() =~= before.push(kids[i as int]));
                        assert(rest + kids.subrange(0, i + 1) =~= (rest + kids.subrange(
                            0,
                            i as int,
                        )).push(kids[i as int]));
                    }
                    i = i + 1;
                }
                proof {
                    assert(kids.subrange(0, kids.len() as int) =~= kids);
                }
                Some((node, depth))
            },
        }
    }
}

/// Starts a walk over the tree rooted at `root`.
pub fn walk<'a>(root: &'a Node) -> (r: WalkIterator<'a>)
    ensures
        r.frontier() == seq![(*root, 0usize)],
{
    WalkIterator::new(root)
}

/// The walk hands out the frontier it has, oldest first, before anything that
/// stepping queues behind it.
pub proof fn lemma_fifo(p: Seq<(Node, usize)>, rest: Seq<(Node, usize)>)
    ensures
        emissions(p + rest, p.len()) == p,
    decreases p.len(),
{
    if p.len() > 0 {
        let q = p + rest;
        assert(q[0] == p[0]);
        assert(step_queue(q) =~= p.drop_first() + (rest + child_entries(p[0].0, p[0].1)));
        lemma_fifo(p.drop_first(), rest + child_entries(p[0].0, p[0].1));
        assert(seq![p[0]] + p.drop_first() =~= p);
    }
}

/// The entries that stepping through every pair of `p` queues: the children
/// of each, in order.
pub open spec fn all_child_entries(p: Seq<(Node, usize)>) -> Seq<(Node, usize)>
    decreases p.len(),
{
    if p.len() == 0 {
        Seq::empty()
    } else {
        child_entries(p[0].0, p[0].1) + all_child_entries(p.drop_first())
    }
}

/// Handing out all of `p` leaves, behind what was queued after it, the
/// children of `p`'s nodes.
pub proof fn lemma_emit_prefix(p: Seq<(Node, usize)>, rest: Seq<(Node, usize)>, k: nat)
    ensures
        emissions(p + rest, p.len() + k) == p + emissions(rest + all_child_entries(p), k),
    decreases p.len(),
{
    if p.len() == 0 {
        assert(p + rest =~= rest);
        assert(rest + all_child_entries(p) =~= rest);
        assert(p + emissions(rest, k) =~= emissions(rest, k));
    } else {
        let q = p + rest;
        let t = p.drop_first();
        let r2 = rest + child_entries(p[0].0, p[0].1);
        assert(q[0] == p[0]);
        assert(step_queue(q) =~= t + r2);
        assert((p.len() + k) as nat - 1 == t.len() + k);
        lemma_emit_prefix(t, r2, k);
        assert(r2 + all_child_entries(t) =~= rest + all_child_entries(p));
        assert(seq![p[0]] + (t + emissions(rest + all_child_entries(p), k)) =~= p + emissions(
            rest + all_child_entries(p),
            k,
        ));
    }
}

/// The children queued for pairs of depth at least 1 have depth at least 2.
pub proof fn lemma_child_entries_deeper(p: Seq<(Node, usize)>)
    requires
        forall|j: int| 0 <= j < p.len() ==> #[trigger] p[j].1 >= 1,
    ensures
        forall|j: int|
            0 <= j < all_child_entries(p).len() ==> #[trigger] all_child_entries(p)[j].1 >= 2,
    decreases p.len(),
{
    if p.len() > 0 {
        let t = p.drop_first();
        assert forall|j: int| 0 <= j < t.len() implies #[trigger] t[j].1 >= 1 by {
            assert(t[j] == p[j + 1]);
        }
        lemma_child_entries_deeper(t);
        let c = child_entries(p[0].0, p[0].1);
        let a = all_child_entries(p);
        assert(p[0].1 >= 1);
        assert forall|j: int| 0 <= j < a.len() implies #[trigger] a[j].1 >= 2 by {
            if j < c.len() {
                assert(a[j] == c[j]);
            } else {
                assert(a[j] == all_child_entries(t)[j - c.len()]);
            }
        }
    }
}

/// From a frontier whose depths are all at least `d`, every pair handed out
/// has depth at least `d`.
pub proof fn lemma_depths_stay_at_least(q: Seq<(Node, usize)>, k: nat, d: usize)
    requires
        forall|j: int| 0 <= j < q.len() ==> #[trigger] q[j].1 >= d,
    ensures
        forall|j: int| 0 <= j < emissions(q, k).len() ==> #[trigger] emissions(q, k)[j].1 >= d,
    decreases k,
{
    if k > 0 && q.len() > 0 {
        let s = step_queue(q);
        assert forall|j: int| 0 <= j < s.len() implies #[trigger] s[j].1 >= d by {
            if j >= q.len() - 1 {
                assert(s[j] == child_entries(q[0].0, q[0].1)[j - (q.len() - 1)]);
            } else {
                assert(s[j] == q[j + 1]);
            }
        }
        lemma_depths_stay_at_least(s, (k - 1) as nat, d);
        let e = emissions(q, k);
        assert forall|j: int| 0 <= j < e.len() implies #[trigger] e[j].1 >= d by {
            if j > 0 {
                assert(e[j] == emissions(s, (k - 1) as nat)[j - 1]);
            }
        }
    }
}

/// From a frontier whose depths are all at least 1, every pair handed out has
/// depth at least 1.
pub proof fn lemma_depths_stay_positive(q: Seq<(Node, usize)>, k: nat)
    requires
        forall|j: int| 0 <= j < q.len() ==> #[trigger] q[j].1 >= 1,
    ensures
        forall|j: int| 0 <= j < emissions(q, k).len() ==> #[trigger] emissions(q, k)[j].1 >= 1,
{
    lemma_depths_stay_at_least(q, k, 1);
}

/// Only the root's direct children come at depth 1: after the root and its
/// children, every pair a walk from `root` hands out has depth at least 2.
pub proof fn law_walk_depth_one_is_children(root: Node, k: nat)
    ensures
        forall|j: int|
            1 + children_of(root.data).len() <= j < emissions(
                seq![(root, 0usize)],
                1 + children_of(root.data).len() + k,
            ).len() ==> #[trigger] emissions(
                seq![(root, 0usize)],
                1 + children_of(root.data).len() + k,
            )[j].1 >= 2,
{
    let q = seq![(root, 0usize)];
    let kids = child_entries(root, 0usize);
    let m = children_of(root.data).len();
    assert(step_queue(q) =~= kids);
    assert(kids.len() == m);
    let e = emissions(q, 1 + m + k);
    assert(e == seq![(root, 0usize)] + emissions(kids, (m + k) as nat));
    lemma_emit_prefix(kids, Seq::empty(), k);
    assert(kids + Seq::<(Node, usize)>::empty() =~= kids);
    assert(Seq::<(Node, usize)>::empty() + all_child_entries(kids) =~= all_child_entries(kids));
    assert forall|j: int| 0 <= j < kids.len() implies #[trigger] kids[j].1 >= 1 by {}
    lemma_child_entries_deeper(kids);
    let rest = all_child_entries(kids);
    lemma_depths_stay_at_least(rest, k, 2);
    assert forall|j: int| 1 + m <= j < e.len() implies #[trigger] e[j].1 >= 2 by {
        assert(e[j] == emissions(kids, (m + k) as nat)[j - 1]);
        assert(emissions(kids, (m + k) as nat)[j - 1] == emissions(rest, k)[j - 1 - m]);
    }
}

/// A walk from `root` hands out the root first, at depth 0, and never again at
/// depth 0; right after it come the root's direct children, in role order,
/// each at depth 1.
pub proof fn law_walk_root_then_children(root: Node, k: nat)
    ensures
        emissions(seq![(root, 0usize)], k + 1)[0] == (root, 0usize),
        forall|j: int|
            1 <= j < emissions(seq![(root, 0usize)], k + 1).len() ==> #[trigger] emissions(
                seq![(root, 0usize)],
                k + 1,
            )[j].1 >= 1,
        emissions(seq![(root, 0usize)], children_of(root.data).len() + 1) == seq![(root, 0usize)]
            + children_of(root.data).map_values(|c: Node| (c, 1usize)),
{
    let q = seq![(root, 0usize)];
    let kids = child_entries(root, 0usize);
    assert(step_queue(q) =~= kids);
    assert(kids =~= children_of(root.data).map_values(|c: Node| (c, 1usize)));
    assert forall|j: int| 0 <= j < kids.len() implies #[trigger] kids[j].1 >= 1 by {}
    lemma_depths_stay_positive(kids, k);
    let e = emissions(q, k + 1);
    assert(e == seq![(root, 0usize)] + emissions(kids, k));
    assert forall|j: int| 1 <= j < e.len() implies #[trigger] e[j].1 >= 1 by {
        assert(e[j] == emissions(kids, k)[j - 1]);
    }
    lemma_fifo(kids, Seq::empty());
    assert(kids + Seq::<(Node, usize)>::empty() =~= kids);
}

} // verus!
