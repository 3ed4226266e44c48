//! The random tree the planner grows, stored in `rtt`'s vector-backed
//! singly-linked tree. The structure is consumed through trusted wrappers
//! whose contracts speak of two content models: the node states in
//! insertion order (root first) and each node's parent index.

use vstd::prelude::*;
use crate::geom::Point;
use rtt::util::rtt::vec_slist::{EmptyRandomTree, NodeRef, RandomTree};

verus! {

#[verifier::external_type_specification]
#[verifier::external_body]
#[verifier::reject_recursive_types(S)]
pub struct ExEmptyRandomTree<S>(EmptyRandomTree<S>);

#[verifier::external_type_specification]
#[verifier::external_body]
#[verifier::reject_recursive_types(S)]
pub struct ExRandomTree<S>(RandomTree<S>);

#[verifier::external_type_specification]
#[verifier::external_body]
pub struct ExNodeRef(NodeRef);

/// The state of every node of the tree, in insertion order; the root is
/// first.
pub uninterp spec fn tree_states(t: RandomTree<Point>) -> Seq<Point>;

/// The parent index of every node; the root's entry is 0 (its own index).
pub uninterp spec fn tree_parents(t: RandomTree<Point>) -> Seq<int>;

/// The insertion index a node reference designates.
pub uninterp spec fn ref_index(r: NodeRef) -> int;

/// The shape every tree built here has: one node per parent entry, a root
/// at index 0, and each later node's parent strictly before it.
pub open spec fn tree_wf(t: RandomTree<Point>) -> bool {
    &&& tree_states(t).len() >= 1
    &&& tree_parents(t).len() == tree_states(t).len()
    &&& tree_parents(t)[0] == 0
    &&& forall|i: int| 1 <= i < tree_parents(t).len() ==> 0 <= #[trigger] tree_parents(t)[i] < i
}

/// The states along the parent chain from node `i` back to the root.
pub open spec fn chain(states: Seq<Point>, parents: Seq<int>, i: int) -> Seq<Point>
    decreases i,
{
    if i <= 0 {
        seq![states[0]]
    } else {
        let p = parents[i];
        if 0 <= p < i {
            seq![states[i]].add(chain(states, parents, p))
        } else {
            seq![states[i]]
        }
    }
}

/// Walking a well-formed tree's parent chain from node `i`: the path
/// starts at `i`'s state, ends at the root's, and every consecutive pair
/// is a tree edge, so when every tree edge is collision-free the whole
/// chain is.
pub proof fn lemma_chain_route(
    states: Seq<Point>,
    parents: Seq<int>,
    obstacles: Seq<crate::geom::CircleArea>,
    i: int,
)
    requires
        parents.len() == states.len(),
        forall|j: int| 1 <= j < parents.len() ==> 0 <= #[trigger] parents[j] < j,
        forall|j: int| 1 <= j < states.len()
            ==> crate::geom::route_free(states[parents[j]], #[trigger] states[j], obstacles),
        0 <= i < states.len(),
    ensures
        chain(states, parents, i).len() >= 1,
        chain(states, parents, i)[0] == states[i],
        chain(states, parents, i).last() == states[0],
        forall|k: int| 0 <= k < chain(states, parents, i).len() - 1
            ==> crate::geom::route_free(
                #[trigger] chain(states, parents, i)[k + 1],
                chain(states, parents, i)[k],
                obstacles,
            ),
    decreases i,
{
    if i <= 0 {
    } else {
        let p = parents[i];
        lemma_chain_route(states, parents, obstacles, p);
        let c = chain(states, parents, i);
        let rest = chain(states, parents, p);
        assert(c =~= seq![states[i]].add(rest));
        assert forall|k: int| 0 <= k < c.len() - 1 implies crate::geom::route_free(
            #[trigger] c[k + 1],
            c[k],
            obstacles,
        ) by {
            if k == 0 {
                assert(c[0] == states[i]);
                assert(c[1] == rest[0]);
                assert(rest[0] == states[p]);
                assert(crate::geom::route_free(states[parents[i]], states[i], obstacles));
            } else {
                assert(c[k] == rest[k - 1] && c[k + 1] == rest[k]);
                assert(crate::geom::route_free(rest[(k - 1) + 1], rest[k - 1], obstacles));
            }
        }
    }
}

/// Relies on `EmptyRandomTree::new`: an empty tree, ready for a root.
#[verifier::external_body]
pub(crate) fn tree_new() -> EmptyRandomTree<Point> {
    EmptyRandomTree::new()
}

/// Relies on `EmptyRandomTree::add_root`: the tree holds exactly one node,
/// the root, with the given state.
#[verifier::external_body]
pub(crate) fn tree_add_root(t: EmptyRandomTree<Point>, state: Point) -> (r: RandomTree<Point>)
    ensures
        tree_states(r) =~= seq![state],
        tree_parents(r) =~= seq![0int],
{
    t.add_root(state)
}

/// Relies on `RandomTree::root`: the reference to the node at index 0.
#[verifier::external_body]
pub(crate) fn tree_root(t: &RandomTree<Point>) -> (r: NodeRef)
    ensures
        ref_index(r) == 0,
{
    t.root()
}

/// Relies on `RandomTree::expand`: appends a child of `parent` holding
/// `state` and returns the reference to it.
#[verifier::external_body]
pub(crate) fn tree_expand(t: &mut RandomTree<Point>, parent: &NodeRef, state: Point) -> (r: NodeRef)
    requires
        0 <= ref_index(*parent) < tree_states(*old(t)).len(),
    ensures
        tree_states(*final(t)) =~= tree_states(*old(t)).push(state),
        tree_parents(*final(t)) =~= tree_parents(*old(t)).push(ref_index(*parent)),
        ref_index(r) == tree_states(*old(t)).len(),
{
    t.expand(*parent, state)
}

/// Relies on `RandomTree::states`: the root and then every child in
/// insertion order, each with its reference.
#[verifier::external_body]
pub(crate) fn tree_nodes(t: &RandomTree<Point>) -> (v: Vec<(NodeRef, Point)>)
    requires
        tree_states(*t).len() >= 1,
    ensures
        v@.len() == tree_states(*t).len(),
        forall|i: int| 0 <= i < v@.len()
            ==> (#[trigger] v@[i]).1 == tree_states(*t)[i] && ref_index(v@[i].0) == i,
{
    let all = t.states();
    let mut v = Vec::new();
    v.push((all.root.0, *all.root.1));
    for (node_ref, state) in all.children {
        v.push((node_ref, *state));
    }
    v
}

/// Relies on `RandomTree::path_iter`: the referenced node's state, then
/// its parent's, and so on back to the root.
#[verifier::external_body]
pub(crate) fn tree_path_states(t: &RandomTree<Point>, node: &NodeRef) -> (v: Vec<Point>)
    requires
        tree_wf(*t),
        0 <= ref_index(*node) < tree_states(*t).len(),
    ensures
        v@ =~= chain(tree_states(*t), tree_parents(*t), ref_index(*node)),
{
    t.path_iter(node).map(|(_, state)| *state).collect()
}

/// Relies on `RandomTree::path_iter`: the state of the referenced node's
/// parent, or nothing for the root.
#[verifier::external_body]
pub(crate) fn tree_parent_state(t: &RandomTree<Point>, node: &NodeRef) -> (r: Option<Point>)
    requires
        tree_wf(*t),
        0 <= ref_index(*node) < tree_states(*t).len(),
    ensures
        r == (if ref_index(*node) == 0 {
            Option::<Point>::None
        } else {
            Option::Some(tree_states(*t)[tree_parents(*t)[ref_index(*node)]])
        }),
{
    let mut path = t.path_iter(node);
    path.next();
    path.next().map(|(_, state)| *state)
}

} // verus!
