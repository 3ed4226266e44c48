//! The sampling planner: grows the random tree through the
//! sample -> nearest -> collision-check -> extend cycle, owns the current
//! frontier node, and detects goal arrival.

use vstd::prelude::*;
use crate::field::{Field, field_ok, in_bounds};
use crate::geom::{
    CircleArea, Point, circle_ok, has_route, lemma_mul_bound, point_ok, route_free, sq_dist_spec,
};
use crate::proto::{DebugImage, SampleTry};
use crate::rng::random_in_range;
use crate::tree::{
    chain, lemma_chain_route, ref_index, tree_add_root, tree_expand, tree_new, tree_nodes,
    tree_parent_state, tree_parents, tree_path_states, tree_root, tree_states, tree_wf,
};
use rand::rngs::ThreadRng;
use rtt::util::rtt::vec_slist::{NodeRef, RandomTree};

verus! {

/// A point lies strictly inside the finish circle.
pub open spec fn goal_reached_spec(p: Point, finish: CircleArea) -> bool {
    sq_dist_spec(p, finish.center) < finish.radius * finish.radius
}

/// Goal membership test: strict inequality on squared distances, so a
/// point exactly on the finish circle's rim is not goal-reached.
pub fn goal_reached(p: &Point, finish: &CircleArea) -> (r: bool)
    requires
        point_ok(*p),
        circle_ok(*finish),
    ensures
        r == goal_reached_spec(*p, *finish),
{
    proof {
        lemma_mul_bound(finish.radius as int, finish.radius as int, 1_000_000, 1_000_000);
    }
    p.sq_dist(&finish.center) < finish.radius * finish.radius
}

/// A complete answer to a solve: at least the start point, ending strictly
/// inside the finish circle, every consecutive pair a collision-free
/// segment of the field.
pub open spec fn valid_route(r: Seq<Point>, f: Field) -> bool {
    &&& r.len() >= 1
    &&& r[0] == f.start
    &&& goal_reached_spec(r.last(), f.config.finish_area)
    &&& forall|k: int| 0 <= k < r.len() - 1 ==> route_free(#[trigger] r[k], r[k + 1], f.obstacles@)
}

/// The debug snapshot's segments: one per tree edge, the edge of node
/// `i + 1` at position `i`, drawn parent first.
pub open spec fn segs_ok(segs: Seq<(Point, Point)>, states: Seq<Point>, parents: Seq<int>) -> bool {
    &&& segs.len() == states.len() - 1
    &&& forall|i: int| 0 <= i < segs.len()
        ==> #[trigger] segs[i] == (states[parents[i + 1]], states[i + 1])
}

/// One in-progress solve: the field being searched, the tree grown so
/// far, the current frontier node, and the debug-stream bookkeeping.
pub struct Solver {
    pub field: Field,
    pub tree: RandomTree<Point>,
    pub frontier: NodeRef,
    pub frontier_state: Point,
    pub goal: bool,
    pub debug: bool,
    pub image: DebugImage,
    pub last_ack: u64,
}

impl Solver {
    /// Everything the planner maintains across iterations: a well-formed
    /// tree rooted at the field's start whose every edge was accepted by
    /// the collision checker, a frontier inside the tree whose goal flag
    /// is current, and, in debug mode, segments matching the tree.
    pub open spec fn wf(self) -> bool {
        &&& field_ok(self.field)
        &&& tree_wf(self.tree)
        &&& tree_states(self.tree)[0] == self.field.start
        &&& forall|i: int| 0 <= i < tree_states(self.tree).len()
            ==> point_ok(#[trigger] tree_states(self.tree)[i])
        &&& forall|i: int| 1 <= i < tree_states(self.tree).len()
            ==> route_free(
                tree_states(self.tree)[tree_parents(self.tree)[i]],
                #[trigger] tree_states(self.tree)[i],
                self.field.obstacles@,
            )
        &&& 0 <= ref_index(self.frontier) < tree_states(self.tree).len()
        &&& self.frontier_state == tree_states(self.tree)[ref_index(self.frontier)]
        &&& self.goal == goal_reached_spec(self.frontier_state, self.field.config.finish_area)
        &&& self.debug ==> segs_ok(
            self.image.routes_segs@,
            tree_states(self.tree),
            tree_parents(self.tree),
        )
    }

    /// Open a solve: a fresh tree holding only the root at the field's
    /// start point, with the goal flag already computed for it.
    pub fn new(field: Field, debug: bool) -> (s: Solver)
        requires
            field_ok(field),
        ensures
            s.wf(),
            s.field == field,
            s.debug == debug,
            s.last_ack == 0,
            s.image.tick_id == 0,
            s.goal == goal_reached_spec(field.start, field.config.finish_area),
            tree_states(s.tree) =~= seq![field.start],
    {
        let start = field.start;
        let tree = tree_add_root(tree_new(), start);
        let root = tree_root(&tree);
        let goal = goal_reached(&start, &field.config.finish_area);
        Solver {
            field,
            tree,
            frontier: root,
            frontier_state: start,
            goal,
            debug,
            image: DebugImage { tick_id: 0, routes_segs: Vec::new(), sample_seg: SampleTry::Untried },
            last_ack: 0,
        }
    }

    /// Reconstruct the route from the root to the frontier, in root-first
    /// order. With the frontier at the goal this is a complete answer.
    pub fn route(&self) -> (r: Vec<Point>)
        requires
            self.wf(),
        ensures
            r@.len() >= 1,
            r@[0] == self.field.start,
            r@.last() == self.frontier_state,
            forall|k: int| 0 <= k < r@.len() - 1
                ==> route_free(#[trigger] r@[k], r@[k + 1], self.field.obstacles@),
            self.goal ==> valid_route(r@, self.field),
            tree_states(self.tree).len() == 1 ==> r@ =~= seq![self.field.start],
            ref_index(self.frontier) >= 1 ==> r@.len() >= 2,
    {
        let ghost states = tree_states(self.tree);
        let ghost parents = tree_parents(self.tree);
        proof {
            lemma_chain_route(states, parents, self.field.obstacles@, ref_index(self.frontier));
        }
        let path = tree_path_states(&self.tree, &self.frontier);
        let n = path.len();
        let mut rev: Vec<Point> = Vec::new();
        let mut k: usize = 0;
        while k < n
            invariant
                0 <= k <= n,
                n == path@.len(),
                rev@.len() == k,
                forall|j: int| 0 <= j < k ==> rev@[j] == path@[n - 1 - j],
            decreases n - k,
        {
            rev.push(path[n - 1 - k]);
            k += 1;
        }
        proof {
            let c = chain(states, parents, ref_index(self.frontier));
            assert(rev@.len() == c.len());
            assert(rev@[0] == c[n - 1] && c[n - 1] == c.last());
            assert(rev@[rev@.len() - 1] == c[0]);
            assert forall|j: int| 0 <= j < rev@.len() - 1 implies route_free(
                #[trigger] rev@[j],
                rev@[j + 1],
                self.field.obstacles@,
            ) by {
                assert(rev@[j] == c[n - 1 - j] && rev@[j + 1] == c[n - 1 - j - 1]);
                assert(route_free(c[(n - 2 - j) + 1], c[n - 2 - j], self.field.obstacles@));
            }
            if states.len() == 1 {
                assert(ref_index(self.frontier) == 0);
                assert(c =~= seq![states[0]]);
            }
            let i = ref_index(self.frontier);
            if i >= 1 {
                let p = parents[i];
                lemma_chain_route(states, parents, self.field.obstacles@, p);
                assert(c == seq![states[i]].add(chain(states, parents, p)));
            }
        }
        rev
    }
}

/// How one sampling attempt may change a solve: not at all (the sample
/// was blocked, the redraw comes with the next attempt), or the tree
/// grown by exactly one node — the drawn sample, inside the field's
/// bounds, hung on the old node nearest to it (ties to the earliest
/// inserted) after the collision checker accepted that segment — which
/// becomes the frontier. Nodes are never removed or modified.
pub open spec fn grows_by_attempt(old_s: Solver, new_s: Solver) -> bool {
    let old_states = tree_states(old_s.tree);
    let new_states = tree_states(new_s.tree);
    ||| (new_s.tree == old_s.tree && new_s.frontier == old_s.frontier
        && new_s.frontier_state == old_s.frontier_state && new_s.goal == old_s.goal)
    ||| ({
        let sample = new_states.last();
        let p = tree_parents(new_s.tree).last();
        &&& new_states == old_states.push(sample)
        &&& tree_parents(new_s.tree) == tree_parents(old_s.tree).push(p)
        &&& 0 <= p < old_states.len()
        &&& in_bounds(sample, old_s.field.config.field_area)
        &&& route_free(old_states[p], sample, old_s.field.obstacles@)
        &&& forall|i: int| 0 <= i < old_states.len()
            ==> sq_dist_spec(sample, old_states[p]) <= sq_dist_spec(sample, #[trigger] old_states[i])
        &&& forall|i: int| 0 <= i < p
            ==> sq_dist_spec(sample, old_states[p]) < sq_dist_spec(sample, #[trigger] old_states[i])
        &&& new_s.frontier_state == sample
        &&& ref_index(new_s.frontier) == old_states.len()
    })
}

/// The snapshot's sample outcome describes one attempt against the tree
/// it was drawn on: the segment from the state of a nearest tree node to
/// a sample inside the field's bounds, labelled by the collision
/// checker's verdict on exactly that segment.
pub open spec fn sample_outcome_ok(seg: SampleTry, states: Seq<Point>, f: Field) -> bool {
    match seg {
        SampleTry::Passable(src, dst) => sample_pair_ok(src, dst, states, f)
            && route_free(src, dst, f.obstacles@),
        SampleTry::Blocked(src, dst) => sample_pair_ok(src, dst, states, f)
            && !route_free(src, dst, f.obstacles@),
        SampleTry::Untried => false,
    }
}

/// `src` is the state of a tree node no other node beats for closeness to
/// `dst`, and `dst` was drawn from the field's bounds.
pub open spec fn sample_pair_ok(src: Point, dst: Point, states: Seq<Point>, f: Field) -> bool {
    &&& in_bounds(dst, f.config.field_area)
    &&& exists|i: int| 0 <= i < states.len() && #[trigger] states[i] == src
    &&& forall|j: int| 0 <= j < states.len()
        ==> sq_dist_spec(dst, src) <= sq_dist_spec(dst, #[trigger] states[j])
}

/// The successor of a tick counter, wrapping at the type's top like the
/// release-build increment it mirrors.
pub open spec fn wrap_inc(k: u64) -> u64 {
    if k == u64::MAX {
        0
    } else {
        (k + 1) as u64
    }
}

impl Solver {
    /// Rebuild the snapshot's segment list from the current tree: one
    /// segment per edge, the edge of node `i + 1` at position `i`.
    fn rebuild_segs(&mut self)
        requires
            tree_wf(old(self).tree),
        ensures
            final(self).field == old(self).field,
            final(self).tree == old(self).tree,
            final(self).frontier == old(self).frontier,
            final(self).frontier_state == old(self).frontier_state,
            final(self).goal == old(self).goal,
            final(self).debug == old(self).debug,
            final(self).last_ack == old(self).last_ack,
            final(self).image.tick_id == old(self).image.tick_id,
            final(self).image.sample_seg == old(self).image.sample_seg,
            segs_ok(
                final(self).image.routes_segs@,
                tree_states(old(self).tree),
                tree_parents(old(self).tree),
            ),
    {
        let ghost states = tree_states(self.tree);
        let ghost parents = tree_parents(self.tree);
        let nodes = tree_nodes(&self.tree);
        self.image.routes_segs.clear();
        let n = nodes.len();
        let mut k: usize = 1;
        while k < n
            invariant
                1 <= k <= n,
                n == nodes@.len(),
                self.field == old(self).field,
                self.tree == old(self).tree,
                self.frontier == old(self).frontier,
                self.frontier_state == old(self).frontier_state,
                self.goal == old(self).goal,
                self.debug == old(self).debug,
                self.last_ack == old(self).last_ack,
                self.image.tick_id == old(self).image.tick_id,
                self.image.sample_seg == old(self).image.sample_seg,
                tree_wf(old(self).tree),
                states == tree_states(self.tree),
                parents == tree_parents(self.tree),
                n == states.len(),
                forall|i: int| 0 <= i < n
                    ==> (#[trigger] nodes@[i]).1 == states[i] && ref_index(nodes@[i].0) == i,
                self.image.routes_segs@.len() == k - 1,
                forall|i: int| 0 <= i < k - 1
                    ==> #[trigger] self.image.routes_segs@[i] == (states[parents[i + 1]], states[i + 1]),
            decreases n - k,
        {
            let parent = tree_parent_state(&self.tree, &nodes[k].0);
            let ps = parent.unwrap();
            self.image.routes_segs.push((ps, nodes[k].1));
            k += 1;
        }
    }

    /// One sampling attempt, the planner's inner iteration: draw a point
    /// uniformly inside the field's bounds, find the nearest tree node,
    /// run the collision checker, and on a passable segment extend the
    /// tree and move the frontier to the new node. In debug mode the
    /// snapshot is refreshed and, when the pacing credit allows (the
    /// current `tick_id` equals the last acknowledged one), a copy to
    /// emit is handed back with the incremented `tick_id`.
    pub fn attempt(&mut self, rng: &mut ThreadRng) -> (tick: Option<DebugImage>)
        requires
            old(self).wf(),
        ensures
            final(self).wf(),
            final(self).field == old(self).field,
            final(self).debug == old(self).debug,
            final(self).last_ack == old(self).last_ack,
            grows_by_attempt(*old(self), *final(self)),
            match tick {
                Some(img) => {
                    &&& old(self).debug
                    &&& old(self).image.tick_id == old(self).last_ack
                    &&& img.tick_id == wrap_inc(old(self).last_ack)
                    &&& final(self).image.tick_id == wrap_inc(old(self).last_ack)
                    &&& segs_ok(
                        img.routes_segs@,
                        tree_states(old(self).tree),
                        tree_parents(old(self).tree),
                    )
                    &&& sample_outcome_ok(
                        img.sample_seg,
                        tree_states(old(self).tree),
                        old(self).field,
                    )
                },
                None => {
                    &&& !old(self).debug || old(self).image.tick_id != old(self).last_ack
                    &&& final(self).image.tick_id == old(self).image.tick_id
                },
            },
    {
        let min_x = self.field.config.field_area.0;
        let min_y = self.field.config.field_area.1;
        let max_x = self.field.config.field_area.2;
        let max_y = self.field.config.field_area.3;
        let sx = random_in_range(rng, min_x, max_x);
        let sy = random_in_range(rng, min_y, max_y);
        let sample = Point { x: sx, y: sy };

        let ghost old_states = tree_states(self.tree);
        let nodes = tree_nodes(&self.tree);
        let best = nearest(&nodes, &sample);
        let src = nodes[best].1;
        let passable = has_route(&src, &sample, &self.field.obstacles);
        proof {
            assert(old_states[best as int] == src);
            assert forall|j: int| 0 <= j < old_states.len() implies sq_dist_spec(sample, src)
                <= sq_dist_spec(sample, #[trigger] old_states[j]) by {
                assert(nodes@[j].1 == old_states[j]);
            }
            assert forall|j: int| 0 <= j < best implies sq_dist_spec(sample, src)
                < sq_dist_spec(sample, #[trigger] old_states[j]) by {
                assert(nodes@[j].1 == old_states[j]);
            }
        }

        let mut tick: Option<DebugImage> = None;
        if self.debug {
            self.image.sample_seg = if passable {
                SampleTry::Passable(src, sample)
            } else {
                SampleTry::Blocked(src, sample)
            };
            proof {
                assert(sample_pair_ok(src, sample, old_states, self.field));
                assert(sample_outcome_ok(self.image.sample_seg, old_states, self.field));
            }
            if self.image.tick_id == self.last_ack {
                self.image.tick_id = self.image.tick_id.wrapping_add(1);
                proof {
                    assert(self.image.tick_id == wrap_inc(old(self).last_ack));
                }
                tick = Some(DebugImage {
                    tick_id: self.image.tick_id,
                    routes_segs: copy_segs(&self.image.routes_segs),
                    sample_seg: self.image.sample_seg,
                });
            }
        }

        if passable {
            let parent_ref = nodes[best].0;
            let node_ref = tree_expand(&mut self.tree, &parent_ref, sample);
            self.frontier = node_ref;
            self.frontier_state = sample;
            self.goal = goal_reached(&sample, &self.field.config.finish_area);
            proof {
                let states = tree_states(self.tree);
                assert forall|i: int| 1 <= i < states.len() implies route_free(
                    states[tree_parents(self.tree)[i]],
                    #[trigger] states[i],
                    self.field.obstacles@,
                ) by {
                    if i < old_states.len() {
                        assert(states[i] == old_states[i]);
                        assert(route_free(
                            old_states[tree_parents(old(self).tree)[i]],
                            old_states[i],
                            self.field.obstacles@,
                        ));
                    } else {
                        assert(states[i] == sample);
                        assert(tree_parents(self.tree)[i] == best as int);
                    }
                }
                assert(states == old_states.push(sample));
                assert(states.last() == sample);
                assert(tree_parents(self.tree).last() == best as int);
                assert(in_bounds(sample, self.field.config.field_area));
                assert(route_free(old_states[best as int], sample, self.field.obstacles@));
            }
            if self.debug {
                self.rebuild_segs();
            }
        }
        tick
    }
}

/// The index of the tree node whose state is closest to the sample; ties
/// go to the earliest-inserted node.
fn nearest(nodes: &Vec<(NodeRef, Point)>, sample: &Point) -> (best: usize)
    requires
        nodes@.len() >= 1,
        point_ok(*sample),
        forall|i: int| 0 <= i < nodes@.len() ==> point_ok((#[trigger] nodes@[i]).1),
    ensures
        0 <= best < nodes@.len(),
        forall|i: int| 0 <= i < nodes@.len()
            ==> sq_dist_spec(*sample, nodes@[best as int].1)
                <= sq_dist_spec(*sample, (#[trigger] nodes@[i]).1),
        forall|i: int| 0 <= i < best
            ==> sq_dist_spec(*sample, nodes@[best as int].1)
                < sq_dist_spec(*sample, (#[trigger] nodes@[i]).1),
{
    let mut best: usize = 0;
    let mut best_d: i64 = sample.sq_dist(&nodes[0].1);
    let n = nodes.len();
    let mut k: usize = 1;
    while k < n
        invariant
            1 <= k <= n,
            n == nodes@.len(),
            0 <= best < k,
            point_ok(*sample),
            forall|i: int| 0 <= i < nodes@.len() ==> point_ok((#[trigger] nodes@[i]).1),
            best_d == sq_dist_spec(*sample, nodes@[best as int].1),
            forall|i: int| 0 <= i < k
                ==> best_d <= sq_dist_spec(*sample, (#[trigger] nodes@[i]).1),
            forall|i: int| 0 <= i < best
                ==> best_d < sq_dist_spec(*sample, (#[trigger] nodes@[i]).1),
        decreases n - k,
    {
        let d = sample.sq_dist(&nodes[k].1);
        if d < best_d {
            best = k;
            best_d = d;
        }
        k += 1;
    }
    best
}

/// An element-for-element copy of a segment list, for emitting a snapshot
/// while keeping the working one.
fn copy_segs(v: &Vec<(Point, Point)>) -> (r: Vec<(Point, Point)>)
    ensures
        r@ =~= v@,
{
    let n = v.len();
    let mut r: Vec<(Point, Point)> = Vec::new();
    let mut k: usize = 0;
    while k < n
        invariant
            0 <= k <= n,
            n == v@.len(),
            r@.len() == k,
            forall|j: int| 0 <= j < k ==> r@[j] == v@[j],
        decreases n - k,
    {
        r.push(v[k]);
        k += 1;
    }
    r
}

} // verus!
