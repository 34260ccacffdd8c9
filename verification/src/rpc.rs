//! The messages exchanged with an external robot process, the publicly
//! visible robot state they carry, and the line framing of the wire format.
//!
//! The wire format is one self-describing value per line, newline-terminated.
//! Encoding a value to bytes and back is left to the caller; this module
//! fixes the state and message shapes and the framing of encoded payloads.

use vstd::prelude::*;
use crate::math::Vector2;
use crate::config::Config;

verus! {

/// The publicly visible state of one robot, in fixed-point counts
/// (1000 counts per world unit or radian) and microseconds.
#[derive(Clone, Copy, Debug, PartialEq, Eq, Structural)]
pub struct BotState {
    /// Position, with the origin in the lower left.
    pub pos: Vector2,

    /// The direction that the robot is facing, in milliradians, going
    /// anticlockwise with 0 pointing right.
    pub heading: i64,

    /// The absolute direction that the gun is facing, in milliradians,
    /// going anticlockwise with 0 pointing right.
    pub gun_heading: i64,

    /// The absolute direction that the radar is facing, in milliradians,
    /// going anticlockwise with 0 pointing right.
    pub radar_heading: i64,

    /// The velocity, in counts per second, in the direction the robot is
    /// facing.
    pub speed: i64,

    /// The acceleration, in counts per second squared.
    pub thrust: i64,

    /// The rate of rotation of the robot, in milliradians per second.
    pub turn_rate: i64,

    /// The rate of rotation of the gun, relative to the robot.
    pub gun_turn_rate: i64,

    /// The rate of rotation of the radar, relative to the robot.
    pub radar_turn_rate: i64,

    /// The bot's hit points. When this reaches zero, the bot dies.
    pub hit_points: i64,

    /// Shooting requires shoot power. It regenerates over time.
    pub shoot_power: i64,
}

impl BotState {
    /// A state at rest at the given position.
    pub fn at_pos(pos: Vector2) -> (r: Self)
        ensures
            r == (BotState {
                pos,
                heading: 0,
                gun_heading: 0,
                radar_heading: 0,
                speed: 0,
                thrust: 0,
                turn_rate: 0,
                gun_turn_rate: 0,
                radar_turn_rate: 0,
                hit_points: 0,
                shoot_power: 0,
            }),
    {
        BotState {
            pos,
            heading: 0,
            gun_heading: 0,
            radar_heading: 0,
            speed: 0,
            thrust: 0,
            turn_rate: 0,
            gun_turn_rate: 0,
            radar_turn_rate: 0,
            hit_points: 0,
            shoot_power: 0,
        }
    }
}

impl Default for BotState {
    /// A state at rest at the origin.
    fn default() -> (r: Self)
        ensures
            r == (BotState {
                pos: Vector2 { x: 0, y: 0 },
                heading: 0,
                gun_heading: 0,
                radar_heading: 0,
                speed: 0,
                thrust: 0,
                turn_rate: 0,
                gun_turn_rate: 0,
                radar_turn_rate: 0,
                hit_points: 0,
                shoot_power: 0,
            }),
    {
        BotState::at_pos(Vector2 { x: 0, y: 0 })
    }
}

/// A message which can be sent to the child process.
#[derive(Clone, Copy, Debug, PartialEq, Eq, Structural)]
pub enum Message {
    /// Sent on initialisation.
    Init {
        /// The world's configuration.
        config: Config,
    },

    /// Sent on each step.
    Step {
        /// The time since the last step (or since initialisation for the
        /// first step), in microseconds.
        elapsed: u64,
    },

    /// Sent when an enemy robot is scanned.
    Scan {
        /// The location where the enemy was seen.
        scan_pos: Vector2,
    },

    /// Sent when the robot dies (or the simulation ends).
    Kill,
}

/// A response which can be sent back to the robot to control it.
/// Rates carry fixed-point counts, as in `BotState`.
#[derive(Clone, Debug, PartialEq, Eq)]
pub enum Response {
    /// Set the thrust. Causes an error if the value is not within the range
    /// specified by `thrust_limits` in the configuration.
    SetThrust(i64),

    /// Set the turn rate. Causes an error if the value is not within the
    /// range specified by `turn_rate_limits` in the configuration.
    SetTurnRate(i64),

    /// Set the gun turn rate. Causes an error if the value is not within
    /// the range specified by `gun_turn_rate_limits` in the configuration.
    SetGunTurnRate(i64),

    /// Set the radar turn rate. Causes an error if the value is not within
    /// the range specified by `radar_turn_rate_limits` in the configuration.
    SetRadarTurnRate(i64),

    /// Fire a bullet in the direction the gun is currently heading, with
    /// the given power. Only one shoot command may be issued per frame.
    Shoot(i64),

    /// Print a message to the simulation console.
    DebugPrint(String),
}

/// The newline byte that terminates each framed payload.
pub const LINE_END: u8 = 10;

/// Whether a payload may stand on one line: it holds no line end of its own.
pub open spec fn payload_framable(payload: Seq<u8>) -> bool {
    forall|i: int| 0 <= i < payload.len() ==> payload[i] != LINE_END
}

/// Frames one encoded payload as a line: the payload followed by a single
/// newline. Returns `None` when the payload already holds a newline, since
/// such a payload cannot be carried by a line-delimited stream.
pub fn frame_line(payload: &Vec<u8>) -> (r: Option<Vec<u8>>)
    requires
        payload@.len() < usize::MAX,
    ensures
        match r {
            Some(line) => {
                &&& payload_framable(payload@)
                &&& line@ == payload@.push(LINE_END)
            },
            None => !payload_framable(payload@),
        },
{
    let n = payload.len();
    let mut line: Vec<u8> = Vec::new();
    let mut i: usize = 0;
    while i < n
        invariant
            n == payload@.len() < usize::MAX,
            i <= n,
            line@ == payload@.subrange(0, i as int),
            forall|j: int| 0 <= j < i ==> payload@[j] != LINE_END,
        decreases n - i,
    {
        let b = payload[i];
        if b == LINE_END {
            return None;
        }
        line.push(b);
        i += 1;
    }
    assert(line@ == payload@);
    line.push(LINE_END);
    Some(line)
}

/// Splits the first framed line off a buffer. Returns the line's payload
/// (without its newline) and the bytes that follow it, or `None` when the
/// buffer holds no complete line yet.
pub fn split_line(buf: &Vec<u8>) -> (r: Option<(Vec<u8>, Vec<u8>)>)
    ensures
        match r {
            Some(pair) => {
                let k = pair.0@.len() as int;
                &&& k < buf@.len()
                &&& pair.0@ == buf@.subrange(0, k)
                &&& payload_framable(pair.0@)
                &&& buf@[k] == LINE_END
                &&& pair.1@ == buf@.subrange(k + 1, buf@.len() as int)
            },
            None => payload_framable(buf@),
        },
{
    let n = buf.len();
    let mut i: usize = 0;
    while i < n
        invariant
            n == buf@.len(),
            i <= n,
            forall|j: int| 0 <= j < i ==> buf@[j] != LINE_END,
        decreases n - i,
    {
        if buf[i] == LINE_END {
            let mut payload: Vec<u8> = Vec::new();
            let mut j: usize = 0;
            while j < i
                invariant
                    i < n == buf@.len(),
                    j <= i,
                    payload@ == buf@.subrange(0, j as int),
                decreases i - j,
            {
                payload.push(buf[j]);
                j += 1;
            }
            let mut rest: Vec<u8> = Vec::new();
            let mut k: usize = i + 1;
            while k < n
                invariant
                    i < n == buf@.len(),
                    i + 1 <= k <= n,
                    rest@ == buf@.subrange(i + 1, k as int),
                decreases n - k,
            {
                rest.push(buf[k]);
                k += 1;
            }
            return Some((payload, rest));
        }
        i += 1;
    }
    None
}

/// Framing round trip: a framed payload prepended to any tail is split
/// back into exactly that payload and that tail.
pub proof fn lemma_frame_split_round_trip(payload: Seq<u8>, tail: Seq<u8>)
    requires
        payload_framable(payload),
    ensures
        ({
            let buf = payload.push(LINE_END) + tail;
            let k = payload.len() as int;
            &&& k < buf.len()
            &&& buf.subrange(0, k) == payload
            &&& buf[k] == LINE_END
            &&& buf.subrange(k + 1, buf.len() as int) == tail
        }),
{
    let buf = payload.push(LINE_END) + tail;
    let k = payload.len() as int;
    assert(buf.subrange(0, k) =~= payload);
    assert(buf.subrange(k + 1, buf.len() as int) =~= tail);
}

} // verus!
