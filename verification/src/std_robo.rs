//! The in-process robot: an actor that answers commands one at a time,
//! usable as an alternate backend for the same controller interface.
//!
//! Where the process-backed controller defers each step to an external
//! program, this one holds its whole state — health, position, velocity,
//! all fixed-point — and mutates it synchronously per command or tick.

use vstd::prelude::*;
use crate::ctl::RoboCtl;
use crate::math::Vector2;

verus! {

/// A command a user's program sends its robot.
#[derive(Clone, Debug, PartialEq, Eq)]
pub enum UserCmd {
    /// Ask for the robot's position.
    GetPos,

    /// Ask for the robot's whole state.
    GetState,

    /// Print a line to the simulation console.
    Log(String),

    /// Set the robot's velocity.
    SetVel(Vector2),
}

/// A command the simulation itself sends a robot.
#[derive(Clone, Copy, Debug, PartialEq, Eq, Structural)]
pub enum SysCmd {
    /// Deal damage to the robot.
    Damage(i64),

    /// Raise a lifecycle event.
    RaiseEvent(Event),
}

/// Any command a robot can receive.
#[derive(Clone, Debug, PartialEq, Eq)]
pub enum Cmd {
    /// From the user's program.
    UserCmd(UserCmd),

    /// From the simulation.
    SysCmd(SysCmd),
}

/// An answer a robot sends back to the user's program.
#[derive(Clone, Copy, Debug, PartialEq, Eq, Structural)]
pub enum Resp {
    /// The robot's position.
    PosIs(Vector2),

    /// The robot's whole state.
    StateIs(StdRobo),
}

/// A lifecycle event.
#[derive(Clone, Copy, Debug, PartialEq, Eq, Structural)]
pub enum Event {
    /// The robot was just created.
    Init,

    /// One simulation tick passed.
    Tick,
}

/// Everything a robot can emit: answers to the user's program, and
/// events passed on to it.
#[derive(Clone, Copy, Debug, PartialEq, Eq, Structural)]
pub enum Output {
    /// An answer to a query command.
    Resp(Resp),

    /// A lifecycle event, raised back to the user's program.
    Event(Event),
}

/// The standard in-process robot state, in fixed-point counts.
#[derive(Clone, Copy, Debug, PartialEq, Eq, Structural)]
pub struct StdRobo {
    /// The bot's hit points. When this reaches zero, the bot dies.
    pub health: i64,

    /// Position, with the origin in the lower left.
    pub pos: Vector2,

    /// Velocity, in counts per tick.
    pub vel: Vector2,
}

/// An `i64` sum that stops at the ends of the range instead of wrapping.
pub open spec fn sat_add_i64(a: int, b: int) -> int {
    if a + b > i64::MAX {
        i64::MAX as int
    } else if a + b < i64::MIN {
        i64::MIN as int
    } else {
        a + b
    }
}

/// What one command does to a robot: a query answers without touching the
/// state, a velocity command replaces the velocity, damage is taken off
/// the health, a log line produces no answer (the harness that carried
/// the command prints it), and a tick event moves the robot by its
/// velocity — positions saturate at the ends of the coordinate range —
/// and is raised back to the user's program.
pub open spec fn handle_input_model(s: StdRobo, cmd: Cmd) -> (StdRobo, Option<Output>) {
    match cmd {
        Cmd::UserCmd(user) => match user {
            UserCmd::GetPos => (s, Some(Output::Resp(Resp::PosIs(s.pos)))),
            UserCmd::GetState => (s, Some(Output::Resp(Resp::StateIs(s)))),
            UserCmd::Log(_) => (s, None),
            UserCmd::SetVel(v) => (StdRobo { vel: v, ..s }, None),
        },
        Cmd::SysCmd(sys) => match sys {
            SysCmd::Damage(dmg) => (
                StdRobo { health: sat_add_i64(s.health as int, -(dmg as int)) as i64, ..s },
                None,
            ),
            SysCmd::RaiseEvent(e) => (
                if e == Event::Tick {
                    StdRobo {
                        pos: Vector2 {
                            x: sat_add_i64(s.pos.x as int, s.vel.x as int) as i64,
                            y: sat_add_i64(s.pos.y as int, s.vel.y as int) as i64,
                        },
                        ..s
                    }
                } else {
                    s
                },
                Some(Output::Event(e)),
            ),
        },
    }
}

/// Saturating `i64` addition.
fn sat_add(a: i64, b: i64) -> (r: i64)
    ensures
        r == sat_add_i64(a as int, b as int),
{
    let s: i128 = a as i128 + b as i128;
    if s > i64::MAX as i128 {
        i64::MAX
    } else if s < i64::MIN as i128 {
        i64::MIN
    } else {
        s as i64
    }
}

impl StdRobo {
    /// Handles one command, mutating the robot and returning what it
    /// emits, exactly as `handle_input_model` lays out.
    pub fn handle_input(&mut self, cmd: Cmd) -> (r: Option<Output>)
        ensures
            ({
                let m = handle_input_model(*old(self), cmd);
                &&& *final(self) == m.0
                &&& r == m.1
            }),
    {
        match cmd {
            Cmd::UserCmd(user) => match user {
                UserCmd::GetPos => Some(Output::Resp(Resp::PosIs(self.pos))),
                UserCmd::GetState => Some(Output::Resp(Resp::StateIs(*self))),
                UserCmd::Log(_) => None,
                UserCmd::SetVel(v) => {
                    self.vel = v;
                    None
                },
            },
            Cmd::SysCmd(sys) => match sys {
                SysCmd::Damage(dmg) => {
                    let s: i128 = self.health as i128 - dmg as i128;
                    self.health = if s > i64::MAX as i128 {
                        i64::MAX
                    } else if s < i64::MIN as i128 {
                        i64::MIN
                    } else {
                        s as i64
                    };
                    None
                },
                SysCmd::RaiseEvent(e) => {
                    if e == Event::Tick {
                        self.pos = Vector2 {
                            x: sat_add(self.pos.x, self.vel.x),
                            y: sat_add(self.pos.y, self.vel.y),
                        };
                    }
                    Some(Output::Event(e))
                },
            },
        }
    }
}

impl RoboCtl for StdRobo {
    type PublicData = StdRobo;

    type Error = ();

    /// The in-process robot saturates instead of overflowing; every state
    /// is acceptable.
    open spec fn wf(&self) -> bool {
        true
    }

    open spec fn public_view(&self) -> StdRobo {
        *self
    }

    /// Initialisation changes nothing; the init event is the harness's.
    open spec fn init_rel(pre: StdRobo, post: StdRobo, err: Option<()>) -> bool {
        &&& err is None
        &&& post == pre
    }

    /// One tick moves the robot by its velocity, saturating at the ends
    /// of the coordinate range.
    open spec fn tick_rel(pre: StdRobo, post: StdRobo, elapsed_micros: u64, err: Option<
        (),
    >) -> bool {
        &&& err is None
        &&& post == (StdRobo {
            pos: Vector2 {
                x: sat_add_i64(pre.pos.x as int, pre.vel.x as int) as i64,
                y: sat_add_i64(pre.pos.y as int, pre.vel.y as int) as i64,
            },
            ..pre
        })
    }

    /// The kill changes nothing; there is no process to take leave of.
    open spec fn kill_rel(pre: StdRobo, post: StdRobo, err: Option<()>) -> bool {
        &&& err is None
        &&& post == pre
    }

    fn init(&mut self) -> (r: Result<(), ()>)
        ensures
            r is Ok,
            *final(self) == *old(self),
    {
        Ok(())
    }

    /// One tick moves the robot by its velocity, as the tick event does.
    fn tick(&mut self, elapsed_micros: u64) -> (r: Result<(), ()>)
        ensures
            r is Ok,
            *final(self) == (StdRobo {
                pos: Vector2 {
                    x: sat_add_i64(old(self).pos.x as int, old(self).vel.x as int) as i64,
                    y: sat_add_i64(old(self).pos.y as int, old(self).vel.y as int) as i64,
                },
                ..*old(self)
            }),
    {
        self.pos = Vector2 {
            x: sat_add(self.pos.x, self.vel.x),
            y: sat_add(self.pos.y, self.vel.y),
        };
        Ok(())
    }

    fn kill(&mut self) -> (r: Result<(), ()>)
        ensures
            r is Ok,
            *final(self) == *old(self),
    {
        Ok(())
    }

    fn public_data(&self) -> (r: StdRobo) {
        *self
    }
}

} // verus!
