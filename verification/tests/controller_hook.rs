//! The controller-side hook and message dispatch.

use battlebots::config::Config;
use battlebots::math::Vector2;
use battlebots::robo_controller::{handle_message, RoboController, RoboHook};
use battlebots::rpc::{BotState, Message, Response};

#[test]
fn hook_setters_clamp_and_record() {
    let mut hook = RoboHook {
        config: Config::default(),
        state: BotState::default(),
        resps: Vec::new(),
    };
    hook.set_thrust(99_999);
    hook.set_turn_rate(-1_500);
    hook.set_gun_turn_rate(-99_999);
    hook.set_radar_turn_rate(500);
    hook.shoot(123_456);
    hook.debug_print(String::from("aim"));

    assert_eq!(hook.state.thrust, 10_000);
    assert_eq!(hook.state.turn_rate, -1_500);
    assert_eq!(hook.state.gun_turn_rate, -2_000);
    assert_eq!(hook.state.radar_turn_rate, 500);
    assert_eq!(
        hook.resps,
        vec![
            Response::SetThrust(10_000),
            Response::SetTurnRate(-1_500),
            Response::SetGunTurnRate(-2_000),
            Response::SetRadarTurnRate(500),
            Response::Shoot(10_000),
            Response::DebugPrint(String::from("aim")),
        ]
    );
}

#[test]
fn relative_headings_subtract_the_body_heading() {
    let mut state = BotState::default();
    state.heading = 1_000;
    state.gun_heading = 1_500;
    state.radar_heading = 400;
    let hook = RoboHook { config: Config::default(), state, resps: Vec::new() };
    assert_eq!(hook.rel_gun_heading(), 500);
    assert_eq!(hook.rel_radar_heading(), -600);
}

struct Charger;

impl RoboController for Charger {
    fn init(&mut self, hook: &mut RoboHook) {
        hook.set_thrust(10_000);
    }

    fn step(&mut self, hook: &mut RoboHook, _elapsed_micros: u64) {
        hook.set_turn_rate(1_000);
    }
}

#[test]
fn handle_message_dispatches_and_reports_liveness() {
    let mut ctl = Charger;
    let mut config = Config::default();

    let (resps, alive) = handle_message(
        &mut ctl,
        &mut config,
        BotState::default(),
        Message::Init { config: Config::default() },
    );
    assert!(alive);
    assert_eq!(resps, vec![Response::SetThrust(10_000)]);

    let (resps, alive) = handle_message(
        &mut ctl,
        &mut config,
        BotState::default(),
        Message::Step { elapsed: 83_000 },
    );
    assert!(alive);
    assert_eq!(resps, vec![Response::SetTurnRate(1_000)]);

    let (resps, alive) = handle_message(
        &mut ctl,
        &mut config,
        BotState::default(),
        Message::Scan { scan_pos: Vector2::new(1, 2) },
    );
    assert!(alive);
    assert!(resps.is_empty());

    let (resps, alive) =
        handle_message(&mut ctl, &mut config, BotState::default(), Message::Kill);
    assert!(!alive);
    assert!(resps.is_empty());
}
