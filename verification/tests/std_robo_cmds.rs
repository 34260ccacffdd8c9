//! The in-process robot's command handling.

use battlebots::math::Vector2;
use battlebots::std_robo::{Cmd, Event, Output, Resp, StdRobo, SysCmd, UserCmd};

fn fresh() -> StdRobo {
    StdRobo { health: 100, pos: Vector2::new(10, 20), vel: Vector2::new(1, 2) }
}

#[test]
fn get_pos_answers_without_moving() {
    let mut robo = fresh();
    let out = robo.handle_input(Cmd::UserCmd(UserCmd::GetPos));
    assert_eq!(out, Some(Output::Resp(Resp::PosIs(Vector2::new(10, 20)))));
    assert_eq!(robo, fresh());
}

#[test]
fn get_state_echoes_the_whole_state() {
    let mut robo = fresh();
    let out = robo.handle_input(Cmd::UserCmd(UserCmd::GetState));
    assert_eq!(out, Some(Output::Resp(Resp::StateIs(fresh()))));
}

#[test]
fn log_produces_no_output() {
    let mut robo = fresh();
    assert_eq!(robo.handle_input(Cmd::UserCmd(UserCmd::Log(String::from("hi")))), None);
    assert_eq!(robo, fresh());
}

#[test]
fn set_vel_replaces_the_velocity() {
    let mut robo = fresh();
    assert_eq!(
        robo.handle_input(Cmd::UserCmd(UserCmd::SetVel(Vector2::new(-3, 4)))),
        None
    );
    assert_eq!(robo.vel, Vector2::new(-3, 4));
    assert_eq!(robo.pos, Vector2::new(10, 20));
}

#[test]
fn damage_comes_off_the_health() {
    let mut robo = fresh();
    assert_eq!(robo.handle_input(Cmd::SysCmd(SysCmd::Damage(30))), None);
    assert_eq!(robo.health, 70);
    assert_eq!(robo.handle_input(Cmd::SysCmd(SysCmd::Damage(i64::MIN))), None);
    assert_eq!(robo.health, i64::MAX);
}

#[test]
fn tick_event_moves_by_velocity_and_is_raised() {
    let mut robo = fresh();
    let out = robo.handle_input(Cmd::SysCmd(SysCmd::RaiseEvent(Event::Tick)));
    assert_eq!(out, Some(Output::Event(Event::Tick)));
    assert_eq!(robo.pos, Vector2::new(11, 22));
}

#[test]
fn init_event_is_raised_without_movement() {
    let mut robo = fresh();
    let out = robo.handle_input(Cmd::SysCmd(SysCmd::RaiseEvent(Event::Init)));
    assert_eq!(out, Some(Output::Event(Event::Init)));
    assert_eq!(robo.pos, Vector2::new(10, 20));
}
