//! The solver worker's control state machine: one transition per channel
//! observation. The caller owns the channels and the clock; it feeds in
//! each command (or its absence) and carries out the returned effects in
//! order — emit the snapshot, pause, emit the route.

use vstd::prelude::*;
use crate::field::field_ok;
use crate::proto::{DebugImage, MasterPacket};
use crate::solver::{Solver, goal_reached_spec, grows_by_attempt, valid_route, wrap_inc};
use crate::tree::{ref_index, tree_states};
use crate::geom::Point;
use rand::rngs::ThreadRng;

verus! {

/// What one look at the command channel produced, from the worker's side.
pub enum WorkerEvent {
    /// A command arrived.
    Cmd(MasterPacket),
    /// Nothing was waiting (a non-blocking poll while solving).
    NoCmd,
    /// The controller is gone; treated like `Terminate`.
    Closed,
}

/// What the caller must do after a transition, in this order: send the
/// debug snapshot, sleep one pacing interval, send the finished route.
pub struct StepEffects {
    pub tick: Option<DebugImage>,
    pub route: Option<Vec<Point>>,
    pub sleep: bool,
}

/// The transition neither emitted anything nor asked for a pause.
pub open spec fn no_output(eff: StepEffects) -> bool {
    &&& eff.tick is None
    &&& eff.route is None
    &&& !eff.sleep
}

/// The event stops the worker for good.
pub open spec fn ends_worker(ev: WorkerEvent) -> bool {
    ||| ev matches WorkerEvent::Cmd(MasterPacket::Terminate)
    ||| ev matches WorkerEvent::Closed
}

/// The event asks for a new solve.
pub open spec fn starts_solve(ev: WorkerEvent) -> bool {
    ||| ev matches WorkerEvent::Cmd(MasterPacket::Solve(_))
    ||| ev matches WorkerEvent::Cmd(MasterPacket::SolveDebug(_))
}

/// The latest acknowledged tick after the event: the event's value if it
/// is an acknowledgment, the previous one otherwise.
pub open spec fn event_ack(ev: WorkerEvent, prev: u64) -> u64 {
    match ev {
        WorkerEvent::Cmd(MasterPacket::DebugTickAck(a)) => a,
        _ => prev,
    }
}

/// The worker: blocked waiting for a command, in the middle of a solve,
/// or stopped for good.
pub enum Worker {
    Idle,
    Solving(Solver),
    Finished,
}

impl Worker {
    /// While solving, the solve is well-formed and its frontier has not
    /// reached the goal (a reached goal is answered within the same
    /// transition).
    pub open spec fn wf(self) -> bool {
        self matches Worker::Solving(s) ==> s.wf() && !s.goal
    }

    /// A worker starts idle.
    pub fn new() -> (w: Worker)
        ensures
            w is Idle,
            w.wf(),
    {
        Worker::Idle
    }

    pub fn is_idle(&self) -> (r: bool)
        ensures
            r == (*self is Idle),
    {
        match self {
            Worker::Idle => true,
            _ => false,
        }
    }

    pub fn is_finished(&self) -> (r: bool)
        ensures
            r == (*self is Finished),
    {
        match self {
            Worker::Finished => true,
            _ => false,
        }
    }

    /// One transition of the worker on one channel observation.
    ///
    /// Idle: `Solve` / `SolveDebug` open a solve (answered on the spot if
    /// the start point already lies in the goal), `Terminate` or a closed
    /// channel stop the worker, everything else is ignored without a
    /// word. Solving: `Abort` discards the solve silently, `Terminate` or
    /// a closed channel stop the worker, an acknowledgment updates the
    /// pacing credit, and otherwise one sampling attempt runs; a snapshot
    /// is emitted only when its `tick_id` equals the last acknowledged
    /// one, and a finished route is emitted the moment the frontier
    /// reaches the goal.
    pub fn step(&mut self, event: WorkerEvent, rng: &mut ThreadRng) -> (eff: StepEffects)
        requires
            old(self).wf(),
            event matches WorkerEvent::Cmd(MasterPacket::Solve(f)) ==> field_ok(f),
            event matches WorkerEvent::Cmd(MasterPacket::SolveDebug(f)) ==> field_ok(f),
        ensures
            final(self).wf(),
            ends_worker(event) ==> *final(self) is Finished && no_output(eff),
            *old(self) is Finished ==> *final(self) is Finished && no_output(eff),
            *old(self) is Idle && !ends_worker(event) && !starts_solve(event)
                ==> *final(self) is Idle && no_output(eff),
            *old(self) is Solving ==> (event matches WorkerEvent::Cmd(MasterPacket::Abort)
                ==> *final(self) is Idle && no_output(eff)),
            *old(self) is Idle ==> (event matches WorkerEvent::Cmd(MasterPacket::Solve(f)) ==> ({
                if goal_reached_spec(f.start, f.config.finish_area) {
                    &&& *final(self) is Idle
                    &&& eff.route matches Some(r) && valid_route(r@, f) && r@ =~= seq![f.start]
                    &&& eff.tick is None
                    &&& !eff.sleep
                } else {
                    &&& *final(self) matches Worker::Solving(s2)
                        && s2.field == f
                        && !s2.debug
                        && s2.last_ack == 0
                        && s2.image.tick_id == 0
                        && tree_states(s2.tree) =~= seq![f.start]
                    &&& no_output(eff)
                }
            })),
            *old(self) is Idle ==> (event matches WorkerEvent::Cmd(MasterPacket::SolveDebug(f)) ==> ({
                if goal_reached_spec(f.start, f.config.finish_area) {
                    &&& *final(self) is Idle
                    &&& eff.route matches Some(r) && valid_route(r@, f) && r@ =~= seq![f.start]
                    &&& eff.tick is None
                    &&& !eff.sleep
                } else {
                    &&& *final(self) matches Worker::Solving(s2)
                        && s2.field == f
                        && s2.debug
                        && s2.last_ack == 0
                        && s2.image.tick_id == 0
                        && tree_states(s2.tree) =~= seq![f.start]
                    &&& no_output(eff)
                }
            })),
            !ends_worker(event) && !(event matches WorkerEvent::Cmd(MasterPacket::Abort))
                ==> (*old(self) matches Worker::Solving(s) ==> ({
                let ack = event_ack(event, s.last_ack);
                &&& eff.sleep == s.debug
                &&& (eff.tick matches Some(img)
                    ==> s.debug && s.image.tick_id == ack && img.tick_id == wrap_inc(ack))
                &&& (eff.tick is None ==> !s.debug || s.image.tick_id != ack)
                &&& match eff.route {
                    Some(r) => valid_route(r@, s.field) && r@.len() >= 2 && *final(self) is Idle,
                    None => *final(self) matches Worker::Solving(s2)
                        && s2.field == s.field
                        && s2.debug == s.debug
                        && s2.last_ack == ack
                        && grows_by_attempt(s, s2),
                }
            })),
    {
        let mut eff = StepEffects { tick: None, route: None, sleep: false };
        let mut next_idle = false;
        let mut next_finished = false;
        let mut begin: Option<Solver> = None;
        match self {
            Worker::Idle => {
                match event {
                    WorkerEvent::Cmd(packet) => match packet {
                        MasterPacket::Solve(f) => {
                            let s = Solver::new(f, false);
                            if s.goal {
                                eff.route = Some(s.route());
                            } else {
                                begin = Some(s);
                            }
                        },
                        MasterPacket::SolveDebug(f) => {
                            let s = Solver::new(f, true);
                            if s.goal {
                                eff.route = Some(s.route());
                            } else {
                                begin = Some(s);
                            }
                        },
                        MasterPacket::Abort => {},
                        MasterPacket::DebugTickAck(_) => {},
                        MasterPacket::Terminate => {
                            next_finished = true;
                        },
                    },
                    WorkerEvent::NoCmd => {},
                    WorkerEvent::Closed => {
                        next_finished = true;
                    },
                }
            },
            Worker::Solving(s) => {
                let mut cancelled = false;
                match event {
                    WorkerEvent::Cmd(packet) => match packet {
                        MasterPacket::Solve(_) => {},
                        MasterPacket::SolveDebug(_) => {},
                        MasterPacket::Abort => {
                            cancelled = true;
                            next_idle = true;
                        },
                        MasterPacket::Terminate => {
                            cancelled = true;
                            next_finished = true;
                        },
                        MasterPacket::DebugTickAck(a) => {
                            s.last_ack = a;
                        },
                    },
                    WorkerEvent::NoCmd => {},
                    WorkerEvent::Closed => {
                        cancelled = true;
                        next_finished = true;
                    },
                }
                if !cancelled {
                    eff.tick = s.attempt(rng);
                    eff.sleep = s.debug;
                    if s.goal {
                        proof {
                            // The goal flag was down at entry, so this
                            // attempt grew the tree: the frontier is a
                            // child, and the route back has two points
                            // or more.
                            assert(ref_index(s.frontier) >= 1);
                        }
                        eff.route = Some(s.route());
                        next_idle = true;
                    }
                }
            },
            Worker::Finished => {
                next_finished = true;
            },
        }
        if next_finished {
            *self = Worker::Finished;
        } else if next_idle {
            *self = Worker::Idle;
        } else if let Some(s) = begin {
            *self = Worker::Solving(s);
        }
        eff
    }
}

} // verus!
