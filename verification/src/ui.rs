//! The controller's side of the protocol: its activity state, the menu
//! line it shows for each state, and the decisions it takes on what the
//! worker sends back. Window handling, cursor tracking and the channel
//! plumbing stay with the caller.

use vstd::prelude::*;
use vstd::string::StringExecFns;
use crate::geom::Point;
use crate::proto::{ChannelPoll, DebugImage, SlavePacket};

verus! {

/// What the controller is busy with.
#[derive(Clone, Copy, Debug, PartialEq, Eq, Structural)]
pub enum Business {
    Idle,
    Solve,
    SolveDebug,
}

impl Business {
    /// The menu line for the current activity.
    pub fn info_line(&self) -> (r: String)
        ensures
            *self is Idle ==> r@ == "<S> to solve, <D> to solve with debug, <C> to clear or <Q> to exit"@,
            *self is Solve ==> r@ == "[ solving in progress ] <A> to abort, <C> to clear or <Q> to exit"@,
            *self is SolveDebug ==> r@
                == "[ debug solving in progress ] <A> to abort, <C> to clear or <Q> to exit"@,
    {
        match self {
            Business::Idle => String::from_str(
                "<S> to solve, <D> to solve with debug, <C> to clear or <Q> to exit",
            ),
            Business::Solve => String::from_str(
                "[ solving in progress ] <A> to abort, <C> to clear or <Q> to exit",
            ),
            Business::SolveDebug => String::from_str(
                "[ debug solving in progress ] <A> to abort, <C> to clear or <Q> to exit",
            ),
        }
    }
}

/// What the caller must do after the controller looked at its event
/// channel: stop the program, and acknowledge a debug snapshot.
pub struct PollResult {
    pub exit: bool,
    pub ack: Option<u64>,
}

/// The controller's protocol state: its activity, the last completed
/// route, and the last debug snapshot, each kept as plain data for a
/// renderer to read.
pub struct Controller {
    pub business: Business,
    pub route_solved: Option<Vec<Point>>,
    pub debug_image: Option<DebugImage>,
}

impl Controller {
    /// A controller starts idle, with nothing solved yet.
    pub fn new() -> (c: Controller)
        ensures
            c.business is Idle,
            c.route_solved is None,
            c.debug_image is None,
    {
        Controller { business: Business::Idle, route_solved: None, debug_image: None }
    }

    /// Whether a solve request may go out now: only while idle (the
    /// worker would ignore it anyway, and the controller would lose track
    /// of its own state).
    pub fn solve_requested(&self) -> (r: bool)
        ensures
            r == (self.business is Idle),
    {
        match self.business {
            Business::Idle => true,
            _ => false,
        }
    }

    /// Record that a solve request went out: the controller is now busy.
    pub fn solve_accepted(&mut self, debug: bool)
        requires
            old(self).business is Idle,
        ensures
            final(self).business == (if debug {
                Business::SolveDebug
            } else {
                Business::Solve
            }),
            final(self).route_solved == old(self).route_solved,
            final(self).debug_image == old(self).debug_image,
    {
        self.business = if debug {
            Business::SolveDebug
        } else {
            Business::Solve
        };
    }

    /// Abort: back to idle; an `Abort` command goes out only when a solve
    /// was actually running.
    pub fn abort(&mut self) -> (send_abort: bool)
        ensures
            final(self).business is Idle,
            send_abort == !(old(self).business is Idle),
            final(self).route_solved == old(self).route_solved,
            final(self).debug_image == old(self).debug_image,
    {
        match self.business {
            Business::Idle => false,
            Business::Solve | Business::SolveDebug => {
                self.business = Business::Idle;
                true
            },
        }
    }

    /// Take in one look at the event channel. A completed route is kept
    /// and ends the busy state — unless the controller is idle, in which
    /// case the stale result is dropped. A debug snapshot is kept and
    /// acknowledged by its `tick_id`. A disconnected worker ends the
    /// program.
    pub fn poll(&mut self, incoming: ChannelPoll<SlavePacket>) -> (r: PollResult)
        ensures
            r.exit == (incoming is Disconnected),
            incoming matches ChannelPoll::Received(SlavePacket::RouteDone(route)) ==> ({
                if old(self).business is Idle {
                    *final(self) == *old(self)
                } else {
                    &&& final(self).business is Idle
                    &&& final(self).route_solved == Some(route)
                    &&& final(self).debug_image == old(self).debug_image
                }
            }) && r.ack is None,
            incoming matches ChannelPoll::Received(SlavePacket::DebugTick(img)) ==> ({
                &&& final(self).debug_image == Some(img)
                &&& final(self).business == old(self).business
                &&& final(self).route_solved == old(self).route_solved
                &&& r.ack == Some(img.tick_id)
            }),
            incoming is Empty || incoming is Disconnected
                ==> *final(self) == *old(self) && r.ack is None,
    {
        match incoming {
            ChannelPoll::Received(packet) => match packet {
                SlavePacket::RouteDone(route) => {
                    match self.business {
                        Business::Idle => PollResult { exit: false, ack: None },
                        Business::Solve | Business::SolveDebug => {
                            self.route_solved = Some(route);
                            self.business = Business::Idle;
                            PollResult { exit: false, ack: None }
                        },
                    }
                },
                SlavePacket::DebugTick(img) => {
                    let id = img.tick_id;
                    self.debug_image = Some(img);
                    PollResult { exit: false, ack: Some(id) }
                },
            },
            ChannelPoll::Empty => PollResult { exit: false, ack: None },
            ChannelPoll::Disconnected => PollResult { exit: true, ack: None },
        }
    }
}

} // verus!
