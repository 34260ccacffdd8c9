//! The process-backed controller: command validation, stepping, physics.

use battlebots::config::Config;
use battlebots::ctl::RoboCtl;
use battlebots::math::Vector2;
use battlebots::rpc::{Message, Response};
use battlebots::user::{Ctl, Error};

fn fresh_ctl() -> Ctl {
    Ctl::new(7, Vector2::new(50_000, 50_000), Config::default())
}

#[test]
fn thrust_in_range_applied_verbatim() {
    let mut ctl = fresh_ctl();
    assert_eq!(ctl.apply_resp(Response::SetThrust(9_999)), Ok(()));
    assert_eq!(ctl.state.thrust, 9_999);
}

#[test]
fn thrust_out_of_range_rejected_and_state_unchanged() {
    let mut ctl = fresh_ctl();
    let before = ctl.state;
    assert_eq!(ctl.apply_resp(Response::SetThrust(10_001)), Err(Error::BadThrust(10_001)));
    assert_eq!(ctl.state, before);
}

#[test]
fn turn_rate_validation_is_exact_at_the_edges() {
    let mut ctl = fresh_ctl();
    assert_eq!(ctl.apply_resp(Response::SetTurnRate(2_000)), Ok(()));
    assert_eq!(ctl.state.turn_rate, 2_000);
    assert_eq!(ctl.apply_resp(Response::SetTurnRate(-2_000)), Ok(()));
    assert_eq!(ctl.state.turn_rate, -2_000);
    assert_eq!(
        ctl.apply_resp(Response::SetTurnRate(-2_001)),
        Err(Error::BadTurnRate(-2_001))
    );
    assert_eq!(ctl.state.turn_rate, -2_000);
}

#[test]
fn gun_and_radar_rates_validated_against_their_own_ranges() {
    let mut ctl = fresh_ctl();
    assert_eq!(ctl.apply_resp(Response::SetGunTurnRate(1_000)), Ok(()));
    assert_eq!(ctl.state.gun_turn_rate, 1_000);
    assert_eq!(
        ctl.apply_resp(Response::SetGunTurnRate(5_000)),
        Err(Error::BadGunTurnRate(5_000))
    );
    assert_eq!(ctl.apply_resp(Response::SetRadarTurnRate(-1_500)), Ok(()));
    assert_eq!(ctl.state.radar_turn_rate, -1_500);
    assert_eq!(
        ctl.apply_resp(Response::SetRadarTurnRate(2_001)),
        Err(Error::BadRadarTurnRate(2_001))
    );
}

#[test]
fn second_shot_in_a_frame_is_refused() {
    let mut ctl = fresh_ctl();
    assert_eq!(ctl.apply_resp(Response::Shoot(3_000)), Ok(()));
    assert_eq!(ctl.next_shot_power, Some(3_000));
    assert_eq!(
        ctl.apply_resp(Response::Shoot(1_000)),
        Err(Error::TooManyBulletsPerFrame)
    );
    assert_eq!(ctl.next_shot_power, Some(3_000));
}

#[test]
fn debug_print_collects_console_lines() {
    let mut ctl = fresh_ctl();
    assert_eq!(ctl.apply_resp(Response::DebugPrint(String::from("hello"))), Ok(()));
    assert_eq!(ctl.apply_resp(Response::DebugPrint(String::from("world"))), Ok(()));
    let log = ctl.take_debug_log();
    assert_eq!(log, vec![String::from("hello"), String::from("world")]);
    assert!(ctl.debug_log.is_empty());
}

#[test]
fn tick_between_steps_counts_down_and_integrates() {
    let mut ctl = fresh_ctl();
    ctl.apply_resp(Response::SetTurnRate(2_000)).unwrap();
    ctl.apply_resp(Response::SetThrust(10_000)).unwrap();

    // One tick of a whole second: heading gains 2000 mrad, speed gains
    // 10000 counts/s then loses 5% friction.
    assert_eq!(ctl.tick_once(1_000_000), Ok(()));
    assert_eq!(ctl.ticks_until_step, 4);
    assert_eq!(ctl.elapsed_since_step, 1_000_000);
    assert_eq!(ctl.state.heading, 2_000);
    assert_eq!(ctl.state.speed, 9_500);

    // Headings wrap: four more seconds of turning passes one full turn.
    assert_eq!(ctl.tick_once(1_000_000), Ok(()));
    assert_eq!(ctl.tick_once(1_000_000), Ok(()));
    assert_eq!(ctl.state.heading, 6_000 % 6_283);
    assert_eq!(ctl.tick_once(1_000_000), Ok(()));
    assert_eq!(ctl.state.heading, 8_000 % 6_283);
}

#[test]
fn step_without_delivered_responses_is_a_slow_response() {
    let mut ctl = fresh_ctl();
    for _ in 0..4 {
        assert_eq!(ctl.tick_once(10_000), Ok(()));
    }
    assert_eq!(ctl.ticks_until_step, 1);
    assert_eq!(ctl.tick_once(10_000), Err(Error::SlowResponse));
    // The step window restarted; the agent would be torn down here.
    assert_eq!(ctl.ticks_until_step, Config::default().ticks_per_step);
}

#[test]
fn step_with_delivered_responses_applies_and_queues_step_message() {
    let mut ctl = fresh_ctl();
    for _ in 0..4 {
        assert_eq!(ctl.tick_once(10_000), Ok(()));
    }
    ctl.deliver_resps(vec![
        Response::SetThrust(4_000),
        Response::DebugPrint(String::from("go")),
    ]);
    assert_eq!(ctl.tick_once(10_000), Ok(()));

    assert_eq!(ctl.state.thrust, 4_000);
    assert_eq!(ctl.elapsed_since_step, 0);
    assert_eq!(ctl.ticks_until_step, 5);
    assert_eq!(ctl.take_debug_log(), vec![String::from("go")]);

    let outbox = ctl.take_outbox();
    assert_eq!(outbox.len(), 1);
    let (snapshot, msg) = &outbox[0];
    // The snapshot is taken after the commands and before the physics.
    assert_eq!(snapshot.thrust, 4_000);
    assert_eq!(snapshot.speed, 0);
    assert_eq!(*msg, Message::Step { elapsed: 50_000 });
}

#[test]
fn refused_command_aborts_the_rest_of_the_batch() {
    let mut ctl = fresh_ctl();
    for _ in 0..4 {
        assert_eq!(ctl.tick_once(10_000), Ok(()));
    }
    ctl.deliver_resps(vec![
        Response::SetThrust(4_000),
        Response::SetTurnRate(99_999),
        Response::SetGunTurnRate(1_000),
    ]);
    assert_eq!(ctl.tick_once(10_000), Err(Error::BadTurnRate(99_999)));
    // The prefix before the refused command was applied; the rest was not.
    assert_eq!(ctl.state.thrust, 4_000);
    assert_eq!(ctl.state.gun_turn_rate, 0);
    // No step message goes out on a refused batch.
    assert!(ctl.take_outbox().is_empty());
}

#[test]
fn advance_position_moves_along_heading_within_bounds() {
    let mut ctl = fresh_ctl();
    ctl.state.speed = 9_500;
    // Facing right: a second at 9.5 units/s moves 9.5 units.
    ctl.advance_position(1_000, 0, 1_000_000);
    assert_eq!(ctl.state.pos, Vector2::new(59_500, 50_000));
    // Facing down at full speed long enough hits the world's edge.
    ctl.state.speed = 1_000_000;
    for _ in 0..60 {
        ctl.advance_position(0, -1_000, 1_000_000);
    }
    assert_eq!(ctl.state.pos.y, 0);
}

#[test]
fn init_and_kill_queue_their_messages() {
    let mut ctl = fresh_ctl();
    RoboCtl::init(&mut ctl).unwrap();
    RoboCtl::kill(&mut ctl).unwrap();
    let outbox = ctl.take_outbox();
    assert_eq!(outbox.len(), 2);
    assert_eq!(outbox[0].1, Message::Init { config: Config::default() });
    assert_eq!(outbox[1].1, Message::Kill);
}
