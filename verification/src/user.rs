//! The controller for a user's robot, backed by an external process.
//!
//! The controller is a state machine: the runner ticks it, the relay's
//! poll results are handed in through `deliver_resps`, and the messages it
//! wants sent pile up in its outbox until the caller drains them into the
//! relay. Every few ticks (one external "step") it applies the process's
//! response commands — validating each against the configured ranges —
//! and queues the next step message; between steps it integrates its
//! physics in fixed-point arithmetic.

use vstd::prelude::*;
use vstd::arithmetic::div_mod::{
    lemma_add_mod_noop_right,
    lemma_mod_division_less_than_divisor,
    lemma_mod_self_0,
    lemma_small_mod,
    lemma_sub_mod_noop_right,
};
use crate::config::{Config, RATE_BOUND_MAX};
use crate::ctl::RoboCtl;
use crate::math::Vector2;
use crate::relay::ProcessError;
use crate::rpc::{BotState, Message, Response};

verus! {

/// One full turn, in milliradians (truncated): headings live in
/// `[0, TAU_MILLI)`.
pub const TAU_MILLI: i64 = 6_283;

/// Largest speed magnitude a robot can reach, in fixed-point counts per
/// second; integration clamps to it.
pub const SPEED_MAX: i64 = 1_000_000_000_000;

/// Longest tick a controller accepts, in microseconds: one second.
pub const ELAPSED_MAX: u64 = 1_000_000;

/// An error raised by a process-backed controller.
#[derive(Clone, Debug, PartialEq, Eq)]
pub enum Error {
    /// The relay's process loop failed.
    Process(ProcessError),

    /// A step came due and the external process had not answered the
    /// previous step yet.
    SlowResponse,

    /// A thrust command outside `thrust_limits`, carrying the refused
    /// value.
    BadThrust(i64),

    /// A turn rate command outside `turn_rate_limits`.
    BadTurnRate(i64),

    /// A gun turn rate command outside `gun_turn_rate_limits`.
    BadGunTurnRate(i64),

    /// A radar turn rate command outside `radar_turn_rate_limits`.
    BadRadarTurnRate(i64),

    /// A second shoot command in the same frame.
    TooManyBulletsPerFrame,
}

/// A rate integrated over a time slice: `rate` fixed-point counts per
/// second over `elapsed` microseconds, truncated toward zero as the
/// executable integer division does.
pub open spec fn scaled_rate(rate: int, elapsed: int) -> int {
    if rate >= 0 {
        (rate * elapsed) / 1_000_000
    } else {
        -(((-rate) * elapsed) / 1_000_000)
    }
}

/// An angle brought into `[0, TAU_MILLI)`, keeping its value modulo one
/// turn.
pub open spec fn norm_angle(x: int) -> int {
    x % (TAU_MILLI as int)
}

/// A value clamped into `[lo, hi]`.
pub open spec fn clamp_val(lo: int, hi: int, v: int) -> int {
    if v < lo {
        lo
    } else if v > hi {
        hi
    } else {
        v
    }
}

/// A value scaled by `f` thousandths, truncated toward zero.
pub open spec fn scale_thousandths(v: int, f: int) -> int {
    if v >= 0 {
        (v * f) / 1000
    } else {
        -(((-v) * f) / 1000)
    }
}

/// A position component advanced by a direction component (`dir`
/// thousandths of a unit vector) times speed over a time slice, truncated
/// toward zero.
pub open spec fn pos_delta(dir: int, speed: int, elapsed: int) -> int {
    let p = dir * speed;
    if p >= 0 {
        (p * elapsed) / 1_000_000_000
    } else {
        -(((-p) * elapsed) / 1_000_000_000)
    }
}

/// The data-model invariant of a robot's public state under a
/// configuration: every rate within its configured range, every heading
/// normalised, speed within the global cap, and the position inside the
/// world.
pub open spec fn state_wf(s: BotState, c: Config) -> bool {
    &&& c.thrust_limits.contains(s.thrust)
    &&& c.turn_rate_limits.contains(s.turn_rate)
    &&& c.gun_turn_rate_limits.contains(s.gun_turn_rate)
    &&& c.radar_turn_rate_limits.contains(s.radar_turn_rate)
    &&& 0 <= s.heading < TAU_MILLI
    &&& 0 <= s.gun_heading < TAU_MILLI
    &&& 0 <= s.radar_heading < TAU_MILLI
    &&& -SPEED_MAX <= s.speed <= SPEED_MAX
    &&& 0 <= s.pos.x <= c.world_size.x
    &&& 0 <= s.pos.y <= c.world_size.y
}

/// One tick of physics, positions excepted: each heading advances by its
/// rate (the gun and radar turn with the body), and the speed gains the
/// thrust and loses the friction, clamped to the global cap.
pub open spec fn physics_step(c: Config, s: BotState, elapsed: int) -> BotState {
    BotState {
        heading: norm_angle(s.heading + scaled_rate(s.turn_rate as int, elapsed)) as i64,
        gun_heading: norm_angle(
            s.gun_heading + scaled_rate(s.gun_turn_rate + s.turn_rate, elapsed),
        ) as i64,
        radar_heading: norm_angle(
            s.radar_heading + scaled_rate(s.radar_turn_rate + s.turn_rate, elapsed),
        ) as i64,
        speed: clamp_val(
            -SPEED_MAX as int,
            SPEED_MAX as int,
            scale_thousandths(
                s.speed + scaled_rate(s.thrust as int, elapsed),
                c.drive_friction as int,
            ),
        ) as i64,
        ..s
    }
}

/// Controller for a user's robot, based on an external process.
#[derive(Debug)]
pub struct Ctl {
    /// The robot's identity, echoed in its console output.
    pub id: u64,

    /// Ticks left until the next external step comes due.
    pub ticks_until_step: u32,

    /// Microseconds accumulated since the last external step.
    pub elapsed_since_step: u64,

    /// The power of the bullet to fire this frame, once one was asked
    /// for.
    pub next_shot_power: Option<i64>,

    /// The robot's publicly visible state.
    pub state: BotState,

    /// The world's configuration.
    pub config: Config,

    /// The response list polled off the relay for the upcoming step, once
    /// the caller delivered it.
    pub inbound: Option<Vec<Response>>,

    /// The records waiting to be drained into the relay.
    pub outbox: Vec<(BotState, Message)>,

    /// Console lines the process asked for, waiting to be drained and
    /// printed by the caller.
    pub debug_log: Vec<String>,
}

/// What one response command does to a controller: the three pieces of
/// controller state a command can touch are the public state, the pending
/// shot, and the console log. A rate command inside its configured range
/// sets its field to exactly the commanded value; outside the range it is
/// refused with the error naming the command and the value, and nothing
/// changes. A first shoot command books the shot; a second in the same
/// frame is refused. A print command appends its line to the log.
pub open spec fn apply_one_model(
    c: Config,
    s: BotState,
    shot: Option<i64>,
    log: Seq<String>,
    resp: Response,
) -> Result<(BotState, Option<i64>, Seq<String>), Error> {
    match resp {
        Response::SetThrust(x) => if c.thrust_limits.contains(x) {
            Ok((BotState { thrust: x, ..s }, shot, log))
        } else {
            Err(Error::BadThrust(x))
        },
        Response::SetTurnRate(x) => if c.turn_rate_limits.contains(x) {
            Ok((BotState { turn_rate: x, ..s }, shot, log))
        } else {
            Err(Error::BadTurnRate(x))
        },
        Response::SetGunTurnRate(x) => if c.gun_turn_rate_limits.contains(x) {
            Ok((BotState { gun_turn_rate: x, ..s }, shot, log))
        } else {
            Err(Error::BadGunTurnRate(x))
        },
        Response::SetRadarTurnRate(x) => if c.radar_turn_rate_limits.contains(x) {
            Ok((BotState { radar_turn_rate: x, ..s }, shot, log))
        } else {
            Err(Error::BadRadarTurnRate(x))
        },
        Response::Shoot(power) => if shot is None {
            Ok((s, Some(power), log))
        } else {
            Err(Error::TooManyBulletsPerFrame)
        },
        Response::DebugPrint(msg) => Ok((s, shot, log.push(msg))),
    }
}

/// What one tick does to a controller, relating the state before
/// (`pre`), the state after (`post`), the elapsed time, and the result.
/// Between steps only the counters advance and the physics integrates.
/// When the step comes due — `pre` has one tick left in its window — the
/// previously delivered response batch is applied and the step message
/// goes out, or the tick fails: as a slow response with nothing
/// delivered, or with the first refused command's error, the applied
/// prefix kept and no message sent.
pub open spec fn tick_relation(pre: Ctl, post: Ctl, elapsed_micros: u64, r: Result<
    (),
    Error,
>) -> bool {
    let at_step = pre.ticks_until_step == 1;
    let elapsed_total = pre.elapsed_since_step.saturating_add(elapsed_micros);
    if !at_step {
        &&& r is Ok
        &&& post == (Ctl {
            ticks_until_step: (pre.ticks_until_step - 1) as u32,
            elapsed_since_step: elapsed_total,
            state: physics_step(pre.config, pre.state, elapsed_micros as int),
            ..pre
        })
    } else {
        match pre.inbound {
            None => {
                &&& r is Err
                &&& r->Err_0 == Error::SlowResponse
                &&& post == (Ctl {
                    ticks_until_step: pre.config.ticks_per_step,
                    elapsed_since_step: elapsed_total,
                    ..pre
                })
            },
            Some(resps) => {
                let applied = apply_batch_model(
                    pre.config,
                    pre.state,
                    pre.next_shot_power,
                    pre.debug_log@,
                    resps@,
                );
                match applied.3 {
                    Some(e) => {
                        &&& r is Err
                        &&& r->Err_0 == e
                        &&& post.id == pre.id
                        &&& post.config == pre.config
                        &&& post.state == applied.0
                        &&& post.next_shot_power == applied.1
                        &&& post.debug_log@ == applied.2
                        &&& post.inbound is None
                        &&& post.ticks_until_step == pre.config.ticks_per_step
                        &&& post.elapsed_since_step == elapsed_total
                        &&& post.outbox == pre.outbox
                    },
                    None => {
                        &&& r is Ok
                        &&& post.id == pre.id
                        &&& post.config == pre.config
                        &&& post.state == physics_step(pre.config, applied.0, elapsed_micros as int)
                        &&& post.next_shot_power == applied.1
                        &&& post.debug_log@ == applied.2
                        &&& post.inbound is None
                        &&& post.ticks_until_step == pre.config.ticks_per_step
                        &&& post.elapsed_since_step == 0
                        &&& post.outbox@ == pre.outbox@.push(
                            (applied.0, Message::Step { elapsed: elapsed_total }),
                        )
                    },
                }
            },
        }
    }
}

/// A whole response batch applied front to first failure: the result
/// carries the state after the applied prefix, and the error — if any —
/// that stopped the batch; commands after a refused one are not applied.
pub open spec fn apply_batch_model(
    c: Config,
    s: BotState,
    shot: Option<i64>,
    log: Seq<String>,
    resps: Seq<Response>,
) -> (BotState, Option<i64>, Seq<String>, Option<Error>)
    decreases resps.len(),
{
    if resps.len() == 0 {
        (s, shot, log, None)
    } else {
        match apply_one_model(c, s, shot, log, resps[0]) {
            Ok((s2, shot2, log2)) => apply_batch_model(c, s2, shot2, log2, resps.drop_first()),
            Err(e) => (s, shot, log, Some(e)),
        }
    }
}

/// Integrates a rate over a time slice in fixed point.
fn scaled_rate_exec(rate: i64, elapsed: u64) -> (r: i64)
    requires
        -2 * RATE_BOUND_MAX <= rate <= 2 * RATE_BOUND_MAX,
        elapsed <= ELAPSED_MAX,
    ensures
        r == scaled_rate(rate as int, elapsed as int),
        -2 * RATE_BOUND_MAX <= r <= 2 * RATE_BOUND_MAX,
{
    let mag: i64 = if rate >= 0 {
        rate
    } else {
        -rate
    };
    proof {
        assert(mag * elapsed <= 2 * RATE_BOUND_MAX * (ELAPSED_MAX as int)) by (nonlinear_arith)
            requires
                0 <= mag <= 2 * RATE_BOUND_MAX,
                0 <= elapsed <= ELAPSED_MAX,
        ;
        assert((mag as int * elapsed as int) / 1_000_000 <= mag) by (nonlinear_arith)
            requires
                0 <= mag,
                0 <= elapsed <= 1_000_000,
        ;
    }
    let scaled: u64 = ((mag as u128 * elapsed as u128) / 1_000_000) as u64;
    if rate >= 0 {
        scaled as i64
    } else {
        -(scaled as i64)
    }
}

/// Advances an angle by a rate over a time slice and brings it back into
/// `[0, TAU_MILLI)`.
fn advance_angle(h: i64, rate: i64, elapsed: u64) -> (r: i64)
    requires
        0 <= h < TAU_MILLI,
        -2 * RATE_BOUND_MAX <= rate <= 2 * RATE_BOUND_MAX,
        elapsed <= ELAPSED_MAX,
    ensures
        r == norm_angle(h + scaled_rate(rate as int, elapsed as int)),
        0 <= r < TAU_MILLI,
{
    let ghost tau = TAU_MILLI as int;
    let delta = scaled_rate_exec(rate, elapsed);
    if delta >= 0 {
        let total: i64 = h + delta;
        proof {
            lemma_mod_division_less_than_divisor(total as int, tau);
        }
        total % TAU_MILLI
    } else {
        let d: i64 = -delta;
        let red: i64 = d % TAU_MILLI;
        proof {
            lemma_mod_division_less_than_divisor(d as int, tau);
            lemma_sub_mod_noop_right(h as int, d as int, tau);
        }
        let x: i64 = h - red;
        if x < 0 {
            proof {
                lemma_mod_self_0(tau);
                lemma_add_mod_noop_right(x as int, tau, tau);
                lemma_small_mod((x + TAU_MILLI) as nat, tau as nat);
            }
            x + TAU_MILLI
        } else {
            proof {
                lemma_small_mod(x as nat, tau as nat);
            }
            x
        }
    }
}

/// Applies thrust and friction to a speed over a time slice, clamped to
/// the global cap.
fn update_speed(speed: i64, thrust: i64, friction: i64, elapsed: u64) -> (r: i64)
    requires
        -SPEED_MAX <= speed <= SPEED_MAX,
        -RATE_BOUND_MAX <= thrust <= RATE_BOUND_MAX,
        0 <= friction <= 1000,
        elapsed <= ELAPSED_MAX,
    ensures
        r == clamp_val(
            -SPEED_MAX as int,
            SPEED_MAX as int,
            scale_thousandths(speed + scaled_rate(thrust as int, elapsed as int), friction as int),
        ),
        -SPEED_MAX <= r <= SPEED_MAX,
{
    let delta = scaled_rate_exec(thrust, elapsed);
    let acc: i64 = speed + delta;
    let damped: i64 = if acc >= 0 {
        proof {
            assert(acc * friction <= (SPEED_MAX + 2 * RATE_BOUND_MAX) * 1000) by (nonlinear_arith)
                requires
                    0 <= acc <= SPEED_MAX + 2 * RATE_BOUND_MAX,
                    0 <= friction <= 1000,
            ;
            assert(0 <= (acc as int * friction as int) / 1000 <= acc * friction) by (
            nonlinear_arith)
                requires
                    0 <= acc,
                    0 <= friction,
            ;
        }
        ((acc as i128 * friction as i128) / 1000) as i64
    } else {
        let neg: i64 = -acc;
        proof {
            assert(neg * friction <= (SPEED_MAX + 2 * RATE_BOUND_MAX) * 1000) by (nonlinear_arith)
                requires
                    0 <= neg <= SPEED_MAX + 2 * RATE_BOUND_MAX,
                    0 <= friction <= 1000,
            ;
            assert(0 <= (neg as int * friction as int) / 1000 <= neg * friction) by (
            nonlinear_arith)
                requires
                    0 <= neg,
                    0 <= friction,
            ;
        }
        -(((neg as i128 * friction as i128) / 1000) as i64)
    };
    if damped < -SPEED_MAX {
        -SPEED_MAX
    } else if damped > SPEED_MAX {
        SPEED_MAX
    } else {
        damped
    }
}

impl Ctl {
    /// A fresh controller: counters at the start of a step window, no
    /// shot booked, nothing delivered and nothing queued, and a state at
    /// rest with the initial position and every rate brought into its
    /// configured range.
    pub fn new(id: u64, initial_pos: Vector2, config: Config) -> (r: Self)
        requires
            config.wf(),
        ensures
            r.wf(),
            r.id == id,
            r.config == config,
            r.ticks_until_step == config.ticks_per_step,
            r.elapsed_since_step == 0,
            r.next_shot_power is None,
            r.inbound is None,
            r.outbox@ == Seq::<(BotState, Message)>::empty(),
            r.debug_log@ == Seq::<String>::empty(),
            r.state == (BotState {
                pos: Vector2 {
                    x: clamp_val(0, config.world_size.x as int, initial_pos.x as int) as i64,
                    y: clamp_val(0, config.world_size.y as int, initial_pos.y as int) as i64,
                },
                heading: 0,
                gun_heading: 0,
                radar_heading: 0,
                speed: 0,
                thrust: config.thrust_limits.clamped(0) as i64,
                turn_rate: config.turn_rate_limits.clamped(0) as i64,
                gun_turn_rate: config.gun_turn_rate_limits.clamped(0) as i64,
                radar_turn_rate: config.radar_turn_rate_limits.clamped(0) as i64,
                hit_points: 0,
                shoot_power: 0,
            }),
    {
        let state = BotState {
            pos: Vector2 {
                x: crate::math::Clamped::new(0, config.world_size.x).clamp(initial_pos.x),
                y: crate::math::Clamped::new(0, config.world_size.y).clamp(initial_pos.y),
            },
            heading: 0,
            gun_heading: 0,
            radar_heading: 0,
            speed: 0,
            thrust: config.thrust_limits.clamp(0),
            turn_rate: config.turn_rate_limits.clamp(0),
            gun_turn_rate: config.gun_turn_rate_limits.clamp(0),
            radar_turn_rate: config.radar_turn_rate_limits.clamp(0),
            hit_points: 0,
            shoot_power: 0,
        };
        Ctl {
            id,
            ticks_until_step: config.ticks_per_step,
            elapsed_since_step: 0,
            next_shot_power: None,
            state,
            config,
            inbound: None,
            outbox: Vec::new(),
            debug_log: Vec::new(),
        }
    }

    /// Perform the effects of a single response. A command inside its
    /// configured range is applied exactly as commanded; one outside is
    /// refused with an error naming the command and the value, and the
    /// controller is left unchanged.
    pub fn apply_resp(&mut self, resp: Response) -> (r: Result<(), Error>)
        requires
            old(self).wf(),
        ensures
            final(self).wf(),
            match apply_one_model(
                old(self).config,
                old(self).state,
                old(self).next_shot_power,
                old(self).debug_log@,
                resp,
            ) {
                Ok(applied) => {
                    &&& r is Ok
                    &&& final(self).state == applied.0
                    &&& final(self).next_shot_power == applied.1
                    &&& final(self).debug_log@ == applied.2
                    &&& final(self).id == old(self).id
                    &&& final(self).config == old(self).config
                    &&& final(self).ticks_until_step == old(self).ticks_until_step
                    &&& final(self).elapsed_since_step == old(self).elapsed_since_step
                    &&& final(self).inbound == old(self).inbound
                    &&& final(self).outbox == old(self).outbox
                },
                Err(e) => {
                    &&& r == Err::<(), Error>(e)
                    &&& *final(self) == *old(self)
                },
            },
    {
        match resp {
            Response::SetThrust(x) => {
                match self.config.thrust_limits.check(x) {
                    Ok(v) => {
                        self.state.thrust = v;
                        Ok(())
                    },
                    Err(v) => Err(Error::BadThrust(v)),
                }
            },
            Response::SetTurnRate(x) => {
                match self.config.turn_rate_limits.check(x) {
                    Ok(v) => {
                        self.state.turn_rate = v;
                        Ok(())
                    },
                    Err(v) => Err(Error::BadTurnRate(v)),
                }
            },
            Response::SetGunTurnRate(x) => {
                match self.config.gun_turn_rate_limits.check(x) {
                    Ok(v) => {
                        self.state.gun_turn_rate = v;
                        Ok(())
                    },
                    Err(v) => Err(Error::BadGunTurnRate(v)),
                }
            },
            Response::SetRadarTurnRate(x) => {
                match self.config.radar_turn_rate_limits.check(x) {
                    Ok(v) => {
                        self.state.radar_turn_rate = v;
                        Ok(())
                    },
                    Err(v) => Err(Error::BadRadarTurnRate(v)),
                }
            },
            Response::Shoot(power) => {
                if self.next_shot_power.is_none() {
                    self.next_shot_power = Some(power);
                    Ok(())
                } else {
                    Err(Error::TooManyBulletsPerFrame)
                }
            },
            Response::DebugPrint(msg) => {
                self.debug_log.push(msg);
                Ok(())
            },
        }
    }

    /// Hands the controller the response list the caller polled off the
    /// relay, for the upcoming step.
    pub fn deliver_resps(&mut self, resps: Vec<Response>)
        ensures
            *final(self) == (Ctl { inbound: Some(resps), ..*old(self) }),
    {
        self.inbound = Some(resps);
    }

    /// Hands over the queued outbound records, oldest first, leaving the
    /// outbox empty; the caller feeds them to the relay.
    pub fn take_outbox(&mut self) -> (r: Vec<(BotState, Message)>)
        ensures
            r == old(self).outbox,
            final(self).outbox@ == Seq::<(BotState, Message)>::empty(),
            final(self).id == old(self).id,
            final(self).ticks_until_step == old(self).ticks_until_step,
            final(self).elapsed_since_step == old(self).elapsed_since_step,
            final(self).next_shot_power == old(self).next_shot_power,
            final(self).state == old(self).state,
            final(self).config == old(self).config,
            final(self).inbound == old(self).inbound,
            final(self).debug_log == old(self).debug_log,
    {
        let mut out: Vec<(BotState, Message)> = Vec::new();
        core::mem::swap(&mut out, &mut self.outbox);
        out
    }

    /// Hands over the collected console lines, oldest first, leaving the
    /// log empty; the caller prints them.
    pub fn take_debug_log(&mut self) -> (r: Vec<String>)
        ensures
            r == old(self).debug_log,
            final(self).debug_log@ == Seq::<String>::empty(),
            final(self).id == old(self).id,
            final(self).ticks_until_step == old(self).ticks_until_step,
            final(self).elapsed_since_step == old(self).elapsed_since_step,
            final(self).next_shot_power == old(self).next_shot_power,
            final(self).state == old(self).state,
            final(self).config == old(self).config,
            final(self).inbound == old(self).inbound,
            final(self).outbox == old(self).outbox,
    {
        let mut out: Vec<String> = Vec::new();
        core::mem::swap(&mut out, &mut self.debug_log);
        out
    }

    /// One simulation tick. Between steps the counters advance and the
    /// physics integrates. When the step comes due — every
    /// `ticks_per_step` ticks — the previously delivered response list is
    /// applied command by command, the next step message (carrying the
    /// snapshot after the commands and the time since the last step) is
    /// queued, and the step window restarts; with nothing delivered the
    /// tick fails as a slow response, and a refused command fails the tick
    /// with that command's error, both fatal to this agent alone.
    #[verifier::loop_isolation(false)]
    pub fn tick_once(&mut self, elapsed_micros: u64) -> (r: Result<(), Error>)
        requires
            old(self).wf(),
            elapsed_micros <= ELAPSED_MAX,
        ensures
            final(self).wf(),
            final(self).id == old(self).id,
            final(self).config == old(self).config,
            tick_relation(*old(self), *final(self), elapsed_micros, r),
    {
        let ghost cfg = self.config;
        self.ticks_until_step = self.ticks_until_step - 1;
        self.elapsed_since_step = self.elapsed_since_step.saturating_add(elapsed_micros);

        if self.ticks_until_step == 0 {
            self.ticks_until_step = self.config.ticks_per_step;

            let polled = self.inbound.take();
            match polled {
                None => {
                    return Err(Error::SlowResponse);
                },
                Some(mut resps) => {
                    let ghost entry = *self;
                    let ghost target = apply_batch_model(
                        cfg,
                        self.state,
                        self.next_shot_power,
                        self.debug_log@,
                        resps@,
                    );
                    while resps.len() > 0
                        invariant
                            self.wf(),
                            self.id == entry.id,
                            self.config == cfg,
                            self.ticks_until_step == entry.ticks_until_step,
                            self.elapsed_since_step == entry.elapsed_since_step,
                            self.inbound == entry.inbound,
                            self.outbox == entry.outbox,
                            target == apply_batch_model(
                                cfg,
                                self.state,
                                self.next_shot_power,
                                self.debug_log@,
                                resps@,
                            ),
                        decreases resps@.len(),
                    {
                        let ghost prev = resps@;
                        let resp = resps.remove(0);
                        proof {
                            assert(prev[0] == resp);
                            assert(prev.drop_first() =~= resps@);
                        }
                        match self.apply_resp(resp) {
                            Ok(()) => (),
                            Err(e) => {
                                return Err(e);
                            },
                        }
                    }

                    let snapshot = self.state;
                    let elapsed_total = self.elapsed_since_step;
                    self.outbox.push((snapshot, Message::Step { elapsed: elapsed_total }));
                    self.elapsed_since_step = 0;
                },
            }
        }

        let st = self.state;
        self.state.heading = advance_angle(st.heading, st.turn_rate, elapsed_micros);
        self.state.gun_heading = advance_angle(
            st.gun_heading,
            st.gun_turn_rate + st.turn_rate,
            elapsed_micros,
        );
        self.state.radar_heading = advance_angle(
            st.radar_heading,
            st.radar_turn_rate + st.turn_rate,
            elapsed_micros,
        );
        self.state.speed = update_speed(
            st.speed,
            st.thrust,
            self.config.drive_friction,
            elapsed_micros,
        );
        Ok(())
    }

    /// Moves the robot along the direction its body faces: the caller
    /// computes the unit direction of the current heading (in thousandths)
    /// and the position advances by direction times speed over the
    /// elapsed time, held inside the world's bounds.
    pub fn advance_position(&mut self, dir_x: i64, dir_y: i64, elapsed_micros: u64)
        requires
            old(self).wf(),
            -1000 <= dir_x <= 1000,
            -1000 <= dir_y <= 1000,
            elapsed_micros <= ELAPSED_MAX,
        ensures
            final(self).wf(),
            *final(self) == (Ctl {
                state: BotState {
                    pos: Vector2 {
                        x: clamp_val(
                            0,
                            old(self).config.world_size.x as int,
                            old(self).state.pos.x + pos_delta(
                                dir_x as int,
                                old(self).state.speed as int,
                                elapsed_micros as int,
                            ),
                        ) as i64,
                        y: clamp_val(
                            0,
                            old(self).config.world_size.y as int,
                            old(self).state.pos.y + pos_delta(
                                dir_y as int,
                                old(self).state.speed as int,
                                elapsed_micros as int,
                            ),
                        ) as i64,
                    },
                    ..old(self).state
                },
                ..*old(self)
            }),
    {
        let x = advance_axis(
            self.state.pos.x,
            dir_x,
            self.state.speed,
            elapsed_micros,
            self.config.world_size.x,
        );
        let y = advance_axis(
            self.state.pos.y,
            dir_y,
            self.state.speed,
            elapsed_micros,
            self.config.world_size.y,
        );
        self.state.pos = Vector2 { x, y };
    }
}

/// Advances one position component, held inside `[0, bound]`.
fn advance_axis(pos: i64, dir: i64, speed: i64, elapsed: u64, bound: i64) -> (r: i64)
    requires
        0 <= pos <= bound,
        bound <= crate::config::WORLD_SIZE_MAX,
        -1000 <= dir <= 1000,
        -SPEED_MAX <= speed <= SPEED_MAX,
        elapsed <= ELAPSED_MAX,
    ensures
        r == clamp_val(
            0,
            bound as int,
            pos + pos_delta(dir as int, speed as int, elapsed as int),
        ),
        0 <= r <= bound,
{
    proof {
        assert(-1000 * SPEED_MAX <= dir as int * speed as int <= 1000 * SPEED_MAX) by (
        nonlinear_arith)
            requires
                -1000 <= dir <= 1000,
                -SPEED_MAX <= speed <= SPEED_MAX,
        ;
    }
    let p: i128 = dir as i128 * speed as i128;
    let mag_p: i128 = if p >= 0 {
        p
    } else {
        -p
    };
    proof {
        assert(mag_p * elapsed <= 1000 * SPEED_MAX * (ELAPSED_MAX as int)) by (nonlinear_arith)
            requires
                0 <= mag_p <= 1000 * SPEED_MAX,
                0 <= elapsed <= ELAPSED_MAX,
        ;
        assert(0 <= (mag_p as int * elapsed as int) / 1_000_000_000 <= mag_p * elapsed) by (
        nonlinear_arith)
            requires
                0 <= mag_p,
                0 <= elapsed,
        ;
    }
    let mag: i128 = (mag_p * elapsed as i128) / 1_000_000_000;
    let d: i64 = if p >= 0 {
        mag as i64
    } else {
        -(mag as i64)
    };
    let moved: i64 = pos + d;
    if moved < 0 {
        0
    } else if moved > bound {
        bound
    } else {
        moved
    }
}

impl RoboCtl for Ctl {
    type PublicData = BotState;

    type Error = Error;

    /// A controller the simulation can run: a runnable configuration, a
    /// step counter inside its window, and a state meeting the data-model
    /// invariant.
    open spec fn wf(&self) -> bool {
        &&& self.config.wf()
        &&& 1 <= self.ticks_until_step <= self.config.ticks_per_step
        &&& state_wf(self.state, self.config)
    }

    open spec fn public_view(&self) -> BotState {
        self.state
    }

    /// Initialisation queues the init record — the starting snapshot and
    /// the configuration — and touches nothing else.
    open spec fn init_rel(pre: Ctl, post: Ctl, err: Option<Error>) -> bool {
        &&& err is None
        &&& post.outbox@ == pre.outbox@.push(
            (pre.state, Message::Init { config: pre.config }),
        )
        &&& post.id == pre.id
        &&& post.ticks_until_step == pre.ticks_until_step
        &&& post.elapsed_since_step == pre.elapsed_since_step
        &&& post.next_shot_power == pre.next_shot_power
        &&& post.state == pre.state
        &&& post.config == pre.config
        &&& post.inbound == pre.inbound
        &&& post.debug_log == pre.debug_log
    }

    /// One tick does exactly what `tick_relation` lays out.
    open spec fn tick_rel(pre: Ctl, post: Ctl, elapsed_micros: u64, err: Option<Error>) -> bool {
        match err {
            None => tick_relation(pre, post, elapsed_micros, Ok(())),
            Some(e) => tick_relation(pre, post, elapsed_micros, Err(e)),
        }
    }

    /// The kill queues the kill record with the final snapshot and
    /// touches nothing else.
    open spec fn kill_rel(pre: Ctl, post: Ctl, err: Option<Error>) -> bool {
        &&& err is None
        &&& post.outbox@ == pre.outbox@.push((pre.state, Message::Kill))
        &&& post.id == pre.id
        &&& post.ticks_until_step == pre.ticks_until_step
        &&& post.elapsed_since_step == pre.elapsed_since_step
        &&& post.next_shot_power == pre.next_shot_power
        &&& post.state == pre.state
        &&& post.config == pre.config
        &&& post.inbound == pre.inbound
        &&& post.debug_log == pre.debug_log
    }

    /// Queues the initialisation message, carrying the starting snapshot
    /// and the configuration, for the external process.
    fn init(&mut self) -> (r: Result<(), Error>)
        ensures
            r is Ok,
            final(self).outbox@ == old(self).outbox@.push(
                (old(self).state, Message::Init { config: old(self).config }),
            ),
            final(self).state == old(self).state,
    {
        let snapshot = self.state;
        let config = self.config;
        self.outbox.push((snapshot, Message::Init { config }));
        Ok(())
    }

    fn tick(&mut self, elapsed_micros: u64) -> (r: Result<(), Error>)
        ensures
            tick_relation(*old(self), *final(self), elapsed_micros, r),
    {
        self.tick_once(elapsed_micros)
    }

    /// Queues the kill message for the external process.
    fn kill(&mut self) -> (r: Result<(), Error>)
        ensures
            r is Ok,
            final(self).outbox@ == old(self).outbox@.push((old(self).state, Message::Kill)),
            final(self).state == old(self).state,
    {
        let snapshot = self.state;
        self.outbox.push((snapshot, Message::Kill));
        Ok(())
    }

    fn public_data(&self) -> (r: BotState) {
        self.state
    }
}

} // verus!
