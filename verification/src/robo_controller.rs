//! The controller side of the external-process protocol: what a user's
//! robot program runs, one message at a time.
//!
//! The harness around it reads one line, decodes the `(state, message)`
//! record, lets `handle_message` drive the user's controller through a
//! hook, and writes the hook's collected responses back as one line. The
//! dispatch and the hook's command recording are the logic and live here;
//! the streams and the encoding stay with the harness.

use vstd::prelude::*;
use crate::config::Config;
use crate::math::Vector2;
use crate::rpc::{BotState, Message, Response};

verus! {

/// A hook into the robot state, handed to the user's controller while one
/// message is handled. Reads show the state the simulation reported;
/// writes clamp to the configured ranges — never reject — and are
/// recorded as response commands for the simulation.
pub struct RoboHook {
    /// The configuration for this simulation, as last announced.
    pub config: Config,

    /// The robot state the simulation reported with the current message.
    pub state: BotState,

    /// The commands recorded so far, in order.
    pub resps: Vec<Response>,
}

/// What a user's robot does, hooked into the simulation. Every callback
/// has a default that does nothing; a controller overrides the ones it
/// cares about.
pub trait RoboController: Sized {
    /// Called just after the robot is created, before any simulation
    /// ticks.
    fn init(&mut self, hook: &mut RoboHook) {
    }

    /// Called periodically every few ticks (as determined by the
    /// configuration), allowing the robot to update itself over time. The
    /// time since the previous step is provided in microseconds.
    fn step(&mut self, hook: &mut RoboHook, elapsed_micros: u64) {
    }

    /// Called when an enemy robot is scanned.
    fn scan(&mut self, hook: &mut RoboHook, scan_pos: Vector2) {
    }

    /// Called when the robot is about to die, either because it was
    /// destroyed or because the simulation has ended. Note that an
    /// immutable reference to the hook is provided, so the simulation
    /// can't be affected in any way by this method.
    fn kill(&mut self, hook: &RoboHook) {
    }
}

impl RoboHook {
    /// View the configuration for this simulation.
    pub fn config(&self) -> (r: &Config)
        ensures
            r == self.config,
    {
        &self.config
    }

    /// View the robot state the simulation reported.
    pub fn state(&self) -> (r: &BotState)
        ensures
            r == self.state,
    {
        &self.state
    }

    /// Get the direction the gun is pointing, relative to the robot's
    /// body; the difference saturates at the ends of the range.
    pub fn rel_gun_heading(&self) -> (r: i64)
        ensures
            r == crate::std_robo::sat_add_i64(
                self.state.gun_heading as int,
                -(self.state.heading as int),
            ),
    {
        let d: i128 = self.state.gun_heading as i128 - self.state.heading as i128;
        if d > i64::MAX as i128 {
            i64::MAX
        } else if d < i64::MIN as i128 {
            i64::MIN
        } else {
            d as i64
        }
    }

    /// Get the direction the radar is pointing, relative to the robot's
    /// body; the difference saturates at the ends of the range.
    pub fn rel_radar_heading(&self) -> (r: i64)
        ensures
            r == crate::std_robo::sat_add_i64(
                self.state.radar_heading as int,
                -(self.state.heading as int),
            ),
    {
        let d: i128 = self.state.radar_heading as i128 - self.state.heading as i128;
        if d > i64::MAX as i128 {
            i64::MAX
        } else if d < i64::MIN as i128 {
            i64::MIN
        } else {
            d as i64
        }
    }

    /// Set the robot's thrust (acceleration). If outside the range
    /// specified by `thrust_limits` in the configuration, clamp to that
    /// range.
    pub fn set_thrust(&mut self, thrust: i64)
        ensures
            ({
                let v = old(self).config.thrust_limits.clamped(thrust);
                &&& final(self).state == (BotState { thrust: v, ..old(self).state })
                &&& final(self).config == old(self).config
                &&& final(self).resps@ == old(self).resps@.push(Response::SetThrust(v))
            }),
    {
        let v = self.config.thrust_limits.clamp(thrust);
        self.state.thrust = v;
        self.resps.push(Response::SetThrust(v));
    }

    /// Set the robot's turn rate. If outside the range specified by
    /// `turn_rate_limits` in the configuration, clamp to that range.
    pub fn set_turn_rate(&mut self, turn_rate: i64)
        ensures
            ({
                let v = old(self).config.turn_rate_limits.clamped(turn_rate);
                &&& final(self).state == (BotState { turn_rate: v, ..old(self).state })
                &&& final(self).config == old(self).config
                &&& final(self).resps@ == old(self).resps@.push(Response::SetTurnRate(v))
            }),
    {
        let v = self.config.turn_rate_limits.clamp(turn_rate);
        self.state.turn_rate = v;
        self.resps.push(Response::SetTurnRate(v));
    }

    /// Set the robot's gun turn rate. If outside the range specified by
    /// `gun_turn_rate_limits` in the configuration, clamp to that range.
    pub fn set_gun_turn_rate(&mut self, gun_turn_rate: i64)
        ensures
            ({
                let v = old(self).config.gun_turn_rate_limits.clamped(gun_turn_rate);
                &&& final(self).state == (BotState { gun_turn_rate: v, ..old(self).state })
                &&& final(self).config == old(self).config
                &&& final(self).resps@ == old(self).resps@.push(Response::SetGunTurnRate(v))
            }),
    {
        let v = self.config.gun_turn_rate_limits.clamp(gun_turn_rate);
        self.state.gun_turn_rate = v;
        self.resps.push(Response::SetGunTurnRate(v));
    }

    /// Set the robot's radar turn rate. If outside the range specified by
    /// `radar_turn_rate_limits` in the configuration, clamp to that range.
    pub fn set_radar_turn_rate(&mut self, radar_turn_rate: i64)
        ensures
            ({
                let v = old(self).config.radar_turn_rate_limits.clamped(radar_turn_rate);
                &&& final(self).state == (BotState { radar_turn_rate: v, ..old(self).state })
                &&& final(self).config == old(self).config
                &&& final(self).resps@ == old(self).resps@.push(Response::SetRadarTurnRate(v))
            }),
    {
        let v = self.config.radar_turn_rate_limits.clamp(radar_turn_rate);
        self.state.radar_turn_rate = v;
        self.resps.push(Response::SetRadarTurnRate(v));
    }

    /// Shoot a bullet with the given power. If outside the range
    /// specified by `bullet_power_limits` in the configuration, clamp to
    /// that range. The simulation refuses a second shot in the same step
    /// when the commands are applied.
    pub fn shoot(&mut self, power: i64)
        ensures
            ({
                let v = old(self).config.bullet_power_limits.clamped(power);
                &&& final(self).state == old(self).state
                &&& final(self).config == old(self).config
                &&& final(self).resps@ == old(self).resps@.push(Response::Shoot(v))
            }),
    {
        let v = self.config.bullet_power_limits.clamp(power);
        self.resps.push(Response::Shoot(v));
    }

    /// Print the provided message to the simulation console.
    pub fn debug_print(&mut self, msg: String)
        ensures
            final(self).state == old(self).state,
            final(self).config == old(self).config,
            final(self).resps@ == old(self).resps@.push(Response::DebugPrint(msg)),
    {
        self.resps.push(Response::DebugPrint(msg));
    }
}

/// Handles one `(state, message)` record for a user's controller: builds
/// the hook, dispatches the message to the matching callback, and returns
/// the commands the controller recorded together with whether the robot
/// is still alive. An announced configuration replaces the current one
/// before the controller runs; a kill message ends the robot's life and
/// can record no commands.
pub fn handle_message<C: RoboController>(
    ctl: &mut C,
    config: &mut Config,
    state: BotState,
    msg: Message,
) -> (r: (Vec<Response>, bool))
    ensures
        r.1 == !(msg is Kill),
        msg is Kill ==> r.0@ == Seq::<Response>::empty(),
        match msg {
            Message::Init { config: announced } => *final(config) == announced,
            _ => *final(config) == *old(config),
        },
{
    match msg {
        Message::Init { config: announced } => {
            *config = announced;
            let mut hook = RoboHook { config: announced, state, resps: Vec::new() };
            ctl.init(&mut hook);
            (hook.resps, true)
        },
        Message::Step { elapsed } => {
            let mut hook = RoboHook { config: *config, state, resps: Vec::new() };
            ctl.step(&mut hook, elapsed);
            (hook.resps, true)
        },
        Message::Scan { scan_pos } => {
            let mut hook = RoboHook { config: *config, state, resps: Vec::new() };
            ctl.scan(&mut hook, scan_pos);
            (hook.resps, true)
        },
        Message::Kill => {
            let hook = RoboHook { config: *config, state, resps: Vec::new() };
            ctl.kill(&hook);
            (hook.resps, false)
        },
    }
}

} // verus!
