//! The command and event vocabulary exchanged between the controller and
//! the solver worker, and the debug-mode snapshot that the worker streams
//! back under acknowledgment pacing.

use vstd::prelude::*;
use crate::field::Field;
use crate::geom::Point;

verus! {

/// Commands the controller sends to the worker.
pub enum MasterPacket {
    /// Begin solving the given field if idle; ignored while solving.
    Solve(Field),
    /// As `Solve`, but stream debug snapshots.
    SolveDebug(Field),
    /// Cancel the in-progress solve silently and return to idle.
    Abort,
    /// Cancel any in-progress solve and stop the worker permanently.
    Terminate,
    /// Acknowledge receipt of the debug snapshot with this `tick_id`.
    DebugTickAck(u64),
}

/// Events the worker sends back to the controller.
pub enum SlavePacket {
    /// A completed route, ordered from the start point to a goal point.
    RouteDone(Vec<Point>),
    /// One throttled snapshot of the search, debug mode only.
    DebugTick(DebugImage),
}

/// The outcome of the latest extension attempt, for drawing.
#[derive(Clone, Copy, Debug, PartialEq, Eq, Structural)]
pub enum SampleTry {
    /// No attempt has been made yet.
    Untried,
    /// The segment from the nearest node to the sample was collision-free.
    Passable(Point, Point),
    /// The segment from the nearest node to the sample was blocked.
    Blocked(Point, Point),
}

/// One snapshot of the search: a monotonic counter, every edge of the
/// current tree as a line segment, and the latest sample outcome.
#[derive(Clone, Debug)]
pub struct DebugImage {
    pub tick_id: u64,
    pub routes_segs: Vec<(Point, Point)>,
    pub sample_seg: SampleTry,
}

/// What one non-blocking look at a channel produced.
pub enum ChannelPoll<T> {
    /// A message was waiting.
    Received(T),
    /// No message was waiting.
    Empty,
    /// The other party is gone.
    Disconnected,
}

} // verus!
