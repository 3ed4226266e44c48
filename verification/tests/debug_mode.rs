use rtt_planner::field::{Field, FieldConfig};
use rtt_planner::geom::Point;
use rtt_planner::proto::{DebugImage, MasterPacket, SampleTry};
use rtt_planner::worker::{Worker, WorkerEvent};

/// A workspace so large the goal is, in practice, never reached: good for
/// watching the debug stream without the solve finishing underneath.
fn endless_field() -> Field {
    let c = FieldConfig::new(0, 0, 1_000_000, 1_000_000);
    Field::generate(c, Point { x: 20, y: 20 })
}

#[test]
fn plain_solve_emits_no_ticks_and_never_sleeps() {
    let mut rng = rand::rng();
    let mut worker = Worker::new();
    worker.step(WorkerEvent::Cmd(MasterPacket::Solve(endless_field())), &mut rng);
    for _ in 0..50 {
        let eff = worker.step(WorkerEvent::NoCmd, &mut rng);
        assert!(eff.tick.is_none());
        assert!(!eff.sleep);
    }
    worker.step(WorkerEvent::Cmd(MasterPacket::Abort), &mut rng);
}

#[test]
fn first_tick_comes_unprompted_then_pacing_holds() {
    let mut rng = rand::rng();
    let mut worker = Worker::new();
    let eff = worker.step(WorkerEvent::Cmd(MasterPacket::SolveDebug(endless_field())), &mut rng);
    assert!(eff.tick.is_none() && eff.route.is_none());

    // The initial credit (tick 0 acknowledged by construction) admits the
    // first snapshot, which carries tick_id 1.
    let eff = worker.step(WorkerEvent::NoCmd, &mut rng);
    assert!(eff.sleep);
    let first: DebugImage = eff.tick.expect("the first attempt must emit a snapshot");
    assert_eq!(first.tick_id, 1);
    match first.sample_seg {
        SampleTry::Passable(..) | SampleTry::Blocked(..) => {}
        SampleTry::Untried => panic!("the snapshot must carry the sample outcome"),
    }

    // Without an acknowledgment, no further snapshot may be emitted.
    for _ in 0..25 {
        let eff = worker.step(WorkerEvent::NoCmd, &mut rng);
        assert!(eff.tick.is_none(), "tick 2 before ack 1 breaks the pacing handshake");
        assert!(eff.sleep);
    }

    // Acknowledging tick 1 releases exactly one more snapshot, tick 2.
    let eff = worker.step(WorkerEvent::Cmd(MasterPacket::DebugTickAck(1)), &mut rng);
    let second = eff.tick.expect("the acknowledgment must release the next snapshot");
    assert_eq!(second.tick_id, 2);

    for _ in 0..25 {
        let eff = worker.step(WorkerEvent::NoCmd, &mut rng);
        assert!(eff.tick.is_none());
    }

    let eff = worker.step(WorkerEvent::Cmd(MasterPacket::Abort), &mut rng);
    assert!(eff.route.is_none() && eff.tick.is_none() && !eff.sleep);
    assert!(worker.is_idle());
}

#[test]
fn snapshot_segments_mirror_the_growing_tree() {
    let mut rng = rand::rng();
    let mut worker = Worker::new();
    worker.step(WorkerEvent::Cmd(MasterPacket::SolveDebug(endless_field())), &mut rng);

    // Snapshots are taken before the attempt's own extension, so a
    // snapshot after n acknowledged attempts shows every edge accepted so
    // far; each edge count grows by at most one per attempt.
    let mut last_ack: u64 = 0;
    let mut seen_segs: usize = 0;
    let mut grew = false;
    for _ in 0..200 {
        let event = if last_ack == 0 {
            WorkerEvent::NoCmd
        } else {
            WorkerEvent::Cmd(MasterPacket::DebugTickAck(last_ack))
        };
        let eff = worker.step(event, &mut rng);
        if let Some(img) = eff.tick {
            assert_eq!(img.tick_id, last_ack + 1);
            assert!(img.routes_segs.len() >= seen_segs);
            assert!(img.routes_segs.len() <= seen_segs + 1);
            if img.routes_segs.len() > seen_segs {
                grew = true;
            }
            seen_segs = img.routes_segs.len();
            // Every drawn segment is nondegenerate: parent and child of an
            // accepted extension never coincide.
            for (src, dst) in &img.routes_segs {
                assert_ne!(src, dst);
            }
            // The sample outcome carries the collision checker's verdict
            // on exactly the drawn segment (no obstacles here).
            let no_obstacles = Vec::new();
            match &img.sample_seg {
                SampleTry::Passable(src, dst) => {
                    assert!(rtt_planner::geom::has_route(src, dst, &no_obstacles));
                }
                SampleTry::Blocked(src, dst) => {
                    assert!(!rtt_planner::geom::has_route(src, dst, &no_obstacles));
                }
                SampleTry::Untried => panic!("an emitted snapshot always has a sample outcome"),
            }
            last_ack = img.tick_id;
        }
    }
    assert!(grew, "two hundred attempts in an empty field must accept an extension");
    worker.step(WorkerEvent::Cmd(MasterPacket::Abort), &mut rng);
}

#[test]
fn debug_solve_still_finishes_with_a_route() {
    let c = FieldConfig::new(0, 0, 100, 100);
    let field = Field::generate(c, Point { x: 20, y: 20 });
    let mut rng = rand::rng();
    let mut worker = Worker::new();
    worker.step(WorkerEvent::Cmd(MasterPacket::SolveDebug(field)), &mut rng);
    let mut last_ack: u64 = 0;
    for _ in 0..1_000_000 {
        let event = if last_ack == 0 {
            WorkerEvent::NoCmd
        } else {
            WorkerEvent::Cmd(MasterPacket::DebugTickAck(last_ack))
        };
        let eff = worker.step(event, &mut rng);
        if let Some(img) = eff.tick {
            last_ack = img.tick_id;
        }
        if let Some(route) = eff.route {
            assert_eq!(route[0], Point { x: 20, y: 20 });
            assert!(worker.is_idle());
            return;
        }
    }
    panic!("the trivial field must be solved");
}
