//! The world driver: snapshot publication and the round protocol, run
//! over in-process robots.

use battlebots::config::Config;
use battlebots::math::Vector2;
use battlebots::robo::Robo;
use battlebots::std_robo::StdRobo;
use battlebots::world::{TickLock, World, WorldStep};

fn robo_at(x: i64, y: i64, vx: i64, vy: i64) -> StdRobo {
    StdRobo { health: 100_000, pos: Vector2::new(x, y), vel: Vector2::new(vx, vy) }
}

#[test]
fn snapshots_reflect_the_state_before_the_tick_in_progress() {
    let config = Config::default();
    let bots = vec![robo_at(0, 0, 1_000, 0), robo_at(5_000, 5_000, 0, -1_000)];
    let (mut world, mut lock) = World::new(config, bots);

    // Pre-populated from the controllers as handed in.
    assert_eq!(world.robos_data()[0].pos, Vector2::new(0, 0));
    assert_eq!(world.robos_data()[1].pos, Vector2::new(5_000, 5_000));

    // During round 0 the published data still shows the pre-tick state.
    assert!(world.run_round(&mut lock, 16_666, false).is_ok());
    assert_eq!(world.robos_data()[0].pos, Vector2::new(0, 0));

    // The next round republishes: now the first tick's movement shows.
    assert!(world.run_round(&mut lock, 16_666, false).is_ok());
    assert_eq!(world.robos_data()[0].pos, Vector2::new(1_000, 0));
    assert_eq!(world.robos_data()[1].pos, Vector2::new(5_000, 4_000));
}

#[test]
fn stop_request_ends_the_run_at_the_next_round() {
    let config = Config::default();
    let (mut world, mut lock) = World::new(config, vec![robo_at(0, 0, 0, 0)]);

    assert!(matches!(world.run_round(&mut lock, 1_000, false), Ok(WorldStep::Ticked)));
    assert!(matches!(world.run_round(&mut lock, 1_000, true), Ok(WorldStep::Ticked)));
    assert!(matches!(world.run_round(&mut lock, 1_000, false), Ok(WorldStep::Finished)));
    assert!(matches!(world.run_round(&mut lock, 1_000, false), Ok(WorldStep::Finished)));
}

#[test]
fn lone_robot_ticks_under_its_own_lock() {
    let config = Config::default();
    let mut lock = TickLock::new(0);
    let mut robo = Robo::new(config, robo_at(100, 200, 10, 20));

    assert!(robo.init().is_ok());
    let guard = match robo.begin_tick(&mut lock) {
        Ok(Some(guard)) => guard,
        _ => panic!("expected admission"),
    };
    assert!(robo.finish_tick(&mut lock, guard, 1_000).is_ok());
    assert_eq!(robo.public_data().pos, Vector2::new(110, 220));
    assert_eq!(robo.ctl().vel, Vector2::new(10, 20));
}

#[test]
fn manual_round_through_the_world_matches_the_thread_order() {
    let config = Config::default();
    let (mut world, mut lock) = World::new(config, vec![robo_at(0, 0, 7, 0)]);

    assert!(world.robo_init(0).is_ok());

    // Start barrier: the world publishes and is admitted, then the agent.
    let world_guard = world.begin_tick(&mut lock).expect("world admitted");
    let agent_guard = match world.robo_begin_tick(0, &mut lock) {
        Ok(Some(guard)) => guard,
        _ => panic!("expected the agent to be admitted"),
    };
    assert_eq!(world_guard.tick(), 0);
    assert_eq!(agent_guard.tick(), 0);

    // The agent works between the barriers; the published snapshot still
    // shows the state from before this tick.
    assert!(world.robo_finish_tick(0, &mut lock, agent_guard, 1_000).is_ok());
    assert_eq!(world.robos_data()[0].pos, Vector2::new(0, 0));

    // End barrier: the world releases last and the round turns over.
    assert_eq!(world.finish_tick(&mut lock, world_guard, false), WorldStep::Ticked);
    let next = world.begin_tick(&mut lock).expect("next round");
    assert_eq!(next.tick(), 1);
    assert_eq!(world.robos_data()[0].pos, Vector2::new(7, 0));
    let agent_next = match world.robo_begin_tick(0, &mut lock) {
        Ok(Some(guard)) => guard,
        _ => panic!("expected the agent in round 1"),
    };
    assert!(world.robo_finish_tick(0, &mut lock, agent_next, 1_000).is_ok());
    assert_eq!(world.finish_tick(&mut lock, next, true), WorldStep::Ticked);
    assert!(matches!(world.robo_begin_tick(0, &mut lock), Ok(None)));
}

#[test]
fn stop_path_kills_the_controller_and_queues_its_kill_record() {
    let config = Config::default();
    let bots = vec![battlebots::user::Ctl::new(9, Vector2::new(0, 0), config)];
    let (mut world, mut lock) = World::new(config, bots);
    assert!(world.robo_init(0).is_ok());

    // One round carries the stop request; the next observes the stop,
    // killing every controller exactly once.
    assert!(matches!(world.run_round(&mut lock, 1_000, true), Ok(WorldStep::Ticked)));
    assert!(matches!(world.run_round(&mut lock, 1_000, false), Ok(WorldStep::Finished)));

    let outbox = world.robo_ctl_mut(0).take_outbox();
    assert_eq!(outbox.len(), 2);
    assert_eq!(outbox[0].1, battlebots::rpc::Message::Init { config });
    assert_eq!(outbox[1].1, battlebots::rpc::Message::Kill);

    // The caller's loop ends at `Finished`; the lock stays stopped.
    assert!(matches!(world.run_round(&mut lock, 1_000, false), Ok(WorldStep::Finished)));
}
