use rtt_planner::field::{Field, FieldConfig};
use rtt_planner::geom::{has_route, CircleArea, Point};
use rtt_planner::proto::MasterPacket;
use rtt_planner::solver::goal_reached;
use rtt_planner::worker::{StepEffects, Worker, WorkerEvent};

#[test]
fn goal_detection_boundary() {
    let finish = CircleArea { center: Point { x: 10, y: 10 }, radius: 3 };
    // Exactly at the center: goal-reached.
    assert!(goal_reached(&Point { x: 10, y: 10 }, &finish));
    // Strictly inside.
    assert!(goal_reached(&Point { x: 12, y: 10 }, &finish));
    // Squared distance exactly radius squared: NOT goal-reached.
    assert!(!goal_reached(&Point { x: 13, y: 10 }, &finish));
    // Just outside.
    assert!(!goal_reached(&Point { x: 14, y: 10 }, &finish));
}

fn trivial_field() -> Field {
    let c = FieldConfig::new(0, 0, 100, 100);
    Field::generate(c, Point { x: 20, y: 20 })
}

fn run_to_route(worker: &mut Worker, max_steps: usize) -> Option<Vec<Point>> {
    let mut rng = rand::rng();
    for _ in 0..max_steps {
        let eff: StepEffects = worker.step(WorkerEvent::NoCmd, &mut rng);
        if let Some(route) = eff.route {
            return Some(route);
        }
    }
    None
}

#[test]
fn solve_on_trivial_field_terminates_with_valid_route() {
    let field = trivial_field();
    let finish = field.config.finish_area;
    let start = field.start;
    let mut rng = rand::rng();
    let mut worker = Worker::new();

    let eff = worker.step(WorkerEvent::Cmd(MasterPacket::Solve(field)), &mut rng);
    assert!(eff.route.is_none() && eff.tick.is_none() && !eff.sleep);

    let route = run_to_route(&mut worker, 1_000_000).expect("the trivial field must be solved");
    assert!(worker.is_idle());
    // The route starts at the field's start point.
    assert_eq!(route[0], start);
    // The route's last point is strictly inside the finish circle.
    assert!(goal_reached(route.last().unwrap(), &finish));
    // Each leg of the route is a collision-free (here: nondegenerate) segment.
    let no_obstacles: Vec<CircleArea> = Vec::new();
    for pair in route.windows(2) {
        assert!(has_route(&pair[0], &pair[1], &no_obstacles));
    }
    // Every point of the route lies inside the field's bounds: the start
    // by construction, the rest as samples drawn from the bounds.
    for p in &route {
        assert!(0 <= p.x && p.x < 100);
        assert!(0 <= p.y && p.y < 100);
    }
}

#[test]
fn solve_routes_around_an_obstacle() {
    let mut field = trivial_field();
    // A wall-like obstacle between start and finish.
    let wall = CircleArea { center: Point { x: 50, y: 50 }, radius: 20 };
    field.add_obstacle(wall);
    let obstacles = field.obstacles.clone();
    let finish = field.config.finish_area;
    let start = field.start;
    let mut rng = rand::rng();
    let mut worker = Worker::new();

    worker.step(WorkerEvent::Cmd(MasterPacket::Solve(field)), &mut rng);
    let route = run_to_route(&mut worker, 1_000_000).expect("the field stays solvable");
    assert_eq!(route[0], start);
    assert!(goal_reached(route.last().unwrap(), &finish));
    // Every accepted leg passed the collision checker.
    for pair in route.windows(2) {
        assert!(has_route(&pair[0], &pair[1], &obstacles));
    }
}

#[test]
fn start_inside_goal_is_answered_on_the_spot() {
    // A tiny square workspace: side 10, radius 2, start area centered at
    // (4, 4), finish at (6, 6). The point (5, 5) lies in both.
    let c = FieldConfig::new(0, 0, 10, 10);
    assert_eq!(c.start_area.center, Point { x: 4, y: 4 });
    assert_eq!(c.finish_area.center, Point { x: 6, y: 6 });
    let field = Field::generate(c, Point { x: 5, y: 5 });
    let mut rng = rand::rng();
    let mut worker = Worker::new();
    let eff = worker.step(WorkerEvent::Cmd(MasterPacket::Solve(field)), &mut rng);
    let route = eff.route.expect("a start inside the goal completes at once");
    assert_eq!(route, vec![Point { x: 5, y: 5 }]);
    assert!(worker.is_idle());
}

#[test]
fn abort_while_idle_is_a_no_op() {
    let mut rng = rand::rng();
    let mut worker = Worker::new();
    let eff = worker.step(WorkerEvent::Cmd(MasterPacket::Abort), &mut rng);
    assert!(eff.route.is_none() && eff.tick.is_none() && !eff.sleep);
    assert!(worker.is_idle());
    assert!(!worker.is_finished());
}

#[test]
fn abort_while_solving_emits_nothing_and_returns_to_idle() {
    let mut rng = rand::rng();
    let mut worker = Worker::new();
    worker.step(WorkerEvent::Cmd(MasterPacket::Solve(trivial_field())), &mut rng);
    assert!(!worker.is_idle());
    let eff = worker.step(WorkerEvent::Cmd(MasterPacket::Abort), &mut rng);
    assert!(eff.route.is_none() && eff.tick.is_none() && !eff.sleep);
    assert!(worker.is_idle());
}

#[test]
fn solve_while_solving_is_ignored() {
    let mut rng = rand::rng();
    let mut worker = Worker::new();
    // A far-away goal in a huge workspace: the solve will not finish here.
    let c = FieldConfig::new(0, 0, 1_000_000, 1_000_000);
    let field = Field::generate(c, Point { x: 20, y: 20 });
    worker.step(WorkerEvent::Cmd(MasterPacket::Solve(field.clone())), &mut rng);
    assert!(!worker.is_idle() && !worker.is_finished());
    let eff = worker.step(WorkerEvent::Cmd(MasterPacket::Solve(field)), &mut rng);
    assert!(eff.route.is_none() && eff.tick.is_none());
    assert!(!worker.is_idle() && !worker.is_finished());
}

#[test]
fn terminate_stops_the_worker_for_good() {
    let mut rng = rand::rng();
    let mut worker = Worker::new();
    let eff = worker.step(WorkerEvent::Cmd(MasterPacket::Terminate), &mut rng);
    assert!(eff.route.is_none() && eff.tick.is_none() && !eff.sleep);
    assert!(worker.is_finished());
    let eff = worker.step(WorkerEvent::Cmd(MasterPacket::Solve(trivial_field())), &mut rng);
    assert!(eff.route.is_none());
    assert!(worker.is_finished());
}

#[test]
fn terminate_while_solving_stops_the_worker() {
    let mut rng = rand::rng();
    let mut worker = Worker::new();
    worker.step(WorkerEvent::Cmd(MasterPacket::Solve(trivial_field())), &mut rng);
    let eff = worker.step(WorkerEvent::Cmd(MasterPacket::Terminate), &mut rng);
    assert!(eff.route.is_none() && eff.tick.is_none() && !eff.sleep);
    assert!(worker.is_finished());
}

#[test]
fn closed_channel_acts_like_terminate() {
    let mut rng = rand::rng();
    let mut worker = Worker::new();
    let eff = worker.step(WorkerEvent::Closed, &mut rng);
    assert!(eff.route.is_none() && eff.tick.is_none());
    assert!(worker.is_finished());
}
