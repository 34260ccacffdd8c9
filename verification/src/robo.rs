//! The per-agent runner: owns one controller and drives its lifecycle
//! under the tick lock.
//!
//! One iteration of the agent's loop is `begin_tick` (the start barrier)
//! followed by `finish_tick` (the controller's work and the end barrier).
//! The caller loops over the two and owns the timing; in the running
//! system each agent loops on a thread of its own, all sharing the lock.

use vstd::prelude::*;
use crate::config::Config;
use crate::ctl::RoboCtl;
use crate::world::{TickGuard, TickLock};

verus! {

/// An error from running a robot.
#[derive(Debug)]
pub enum Error<Ctl: RoboCtl> {
    /// The exclusive-access primitive around the robot's state observed a
    /// prior panic while held.
    StatePoisoned,

    /// The world's shared data observed a prior panic while held.
    WorldPoisoned,

    /// The controller's own callback failed.
    Ctl(Ctl::Error),
}

/// An error from touching a robot's state outside its run loop.
#[derive(Clone, Copy, Debug)]
pub enum StateError {
    /// The exclusive-access primitive observed a prior panic while held.
    Poisoned,
}

/// What one loop iteration of a running robot did.
#[derive(Clone, Copy, Debug, PartialEq, Eq, Structural)]
pub enum RunStep {
    /// The robot was admitted to a tick and its controller ran.
    Ticked,

    /// The world has stopped; the controller was killed and the loop is
    /// over.
    Finished,
}

/// The robot's controller went through one tick transition, with some
/// outcome of its own; when `ok` holds, that outcome was success.
pub open spec fn robo_ticked<Ctl: RoboCtl>(
    pre: Robo<Ctl>,
    post: Robo<Ctl>,
    elapsed_micros: u64,
    ok: bool,
) -> bool {
    exists|err: Option<Ctl::Error>|
        {
            &&& #[trigger] Ctl::tick_rel(pre.spec_ctl(), post.spec_ctl(), elapsed_micros, err)
            &&& (ok ==> err is None)
        }
}

/// The robot's controller went through its kill transition, with some
/// outcome of its own; when `ok` holds, that outcome was success.
pub open spec fn robo_killed<Ctl: RoboCtl>(pre: Robo<Ctl>, post: Robo<Ctl>, ok: bool) -> bool {
    exists|err: Option<Ctl::Error>|
        {
            &&& #[trigger] Ctl::kill_rel(pre.spec_ctl(), post.spec_ctl(), err)
            &&& (ok ==> err is None)
        }
}

/// A robot: one controller plus the configuration it runs under, whose
/// behaviour is determined by the `Ctl` type.
pub struct Robo<Ctl: RoboCtl> {
    config: Config,
    ctl: Ctl,
}

impl<Ctl: RoboCtl> Robo<Ctl> {
    /// The controller in its current state.
    pub closed spec fn spec_ctl(&self) -> Ctl {
        self.ctl
    }

    /// The configuration the robot was created with.
    pub closed spec fn spec_config(&self) -> Config {
        self.config
    }

    /// A robot is as well formed as its controller.
    pub open spec fn wf(&self) -> bool {
        self.spec_ctl().wf()
    }

    /// Creates a new robot from a configuration and a controller.
    pub fn new(config: Config, ctl: Ctl) -> (r: Self)
        ensures
            r.spec_config() == config,
            r.spec_ctl() == ctl,
    {
        Robo { config, ctl }
    }

    /// Initialises the controller, once, before the first tick: the
    /// controller's own init transition happens, and its result is
    /// surfaced unchanged.
    pub fn init(&mut self) -> (r: Result<(), Error<Ctl>>)
        requires
            old(self).wf(),
        ensures
            final(self).wf(),
            final(self).spec_config() == old(self).spec_config(),
            match r {
                Ok(()) => Ctl::init_rel(
                    old(self).spec_ctl(),
                    final(self).spec_ctl(),
                    None,
                ),
                Err(Error::Ctl(e)) => Ctl::init_rel(
                    old(self).spec_ctl(),
                    final(self).spec_ctl(),
                    Some(e),
                ),
                Err(_) => false,
            },
    {
        match self.ctl.init() {
            Ok(()) => Ok(()),
            Err(e) => Err(Error::Ctl(e)),
        }
    }

    /// Starts one loop iteration: asks the tick lock for admission to the
    /// current round. A guard means the robot is inside the tick and must
    /// follow up with `finish_tick`; `None` means the world has stopped,
    /// the controller underwent its kill transition — once, here — and
    /// the loop is over, with the kill's own failure surfaced unchanged.
    pub fn begin_tick(&mut self, tick_lock: &mut TickLock) -> (r: Result<
        Option<TickGuard>,
        Error<Ctl>,
    >)
        requires
            old(self).wf(),
            old(tick_lock).wf(),
            old(tick_lock).spec_running() ==> old(tick_lock).spec_admitted() < old(
                tick_lock,
            ).spec_total(),
        ensures
            final(self).wf(),
            final(self).spec_config() == old(self).spec_config(),
            final(tick_lock).wf(),
            *final(tick_lock) == old(tick_lock).take_state(),
            match r {
                Ok(Some(guard)) => {
                    &&& old(tick_lock).spec_running()
                    &&& Some(guard) == old(tick_lock).take_result()
                    &&& guard.spec_tick() == old(tick_lock).spec_tick()
                    &&& !guard.spec_stop_requested()
                    &&& *final(self) == *old(self)
                },
                Ok(None) => {
                    &&& !old(tick_lock).spec_running()
                    &&& Ctl::kill_rel(old(self).spec_ctl(), final(self).spec_ctl(), None)
                },
                Err(Error::Ctl(e)) => {
                    &&& !old(tick_lock).spec_running()
                    &&& Ctl::kill_rel(old(self).spec_ctl(), final(self).spec_ctl(), Some(e))
                },
                Err(_) => false,
            },
    {
        match tick_lock.take() {
            Some(guard) => Ok(Some(guard)),
            None => {
                match self.ctl.kill() {
                    Ok(()) => Ok(None),
                    Err(e) => Err(Error::Ctl(e)),
                }
            },
        }
    }

    /// Finishes one loop iteration: runs the controller's tick for the
    /// elapsed wall-clock time (in microseconds, at most one second) and
    /// gives the guard back, which is the end-barrier wait. The
    /// controller's tick transition happens strictly between the two
    /// barrier crossings, its result is surfaced unchanged — success if
    /// and only if the callback succeeded — and the guard is given back
    /// even when the controller fails, so a failing agent never blocks
    /// the rest of the round.
    pub fn finish_tick(
        &mut self,
        tick_lock: &mut TickLock,
        guard: TickGuard,
        elapsed_micros: u64,
    ) -> (r: Result<RunStep, Error<Ctl>>)
        requires
            old(self).wf(),
            old(tick_lock).wf(),
            old(tick_lock).spec_admitted() == old(tick_lock).spec_total(),
            old(tick_lock).spec_released() < old(tick_lock).spec_admitted(),
            guard.spec_tick() == old(tick_lock).spec_tick(),
            old(tick_lock).spec_tick() < u64::MAX,
            elapsed_micros <= 1_000_000,
        ensures
            final(self).wf(),
            final(self).spec_config() == old(self).spec_config(),
            final(tick_lock).wf(),
            *final(tick_lock) == old(tick_lock).release_state(guard),
            match r {
                Ok(step) => {
                    &&& step == RunStep::Ticked
                    &&& Ctl::tick_rel(
                        old(self).spec_ctl(),
                        final(self).spec_ctl(),
                        elapsed_micros,
                        None,
                    )
                },
                Err(Error::Ctl(e)) => Ctl::tick_rel(
                    old(self).spec_ctl(),
                    final(self).spec_ctl(),
                    elapsed_micros,
                    Some(e),
                ),
                Err(_) => false,
            },
    {
        let ticked = self.ctl.tick(elapsed_micros);
        tick_lock.release(guard);
        match ticked {
            Ok(()) => Ok(RunStep::Ticked),
            Err(e) => Err(Error::Ctl(e)),
        }
    }

    /// Reads the controller's public data, as the world does between
    /// ticks.
    pub fn public_data(&self) -> (r: Ctl::PublicData)
        requires
            self.wf(),
        ensures
            r == self.spec_ctl().public_view(),
    {
        self.ctl.public_data()
    }

    /// Lets the caller look at the controller itself.
    pub fn ctl(&self) -> (r: &Ctl)
        ensures
            r == self.spec_ctl(),
    {
        &self.ctl
    }

    /// Exclusive access to the controller, as holding the robot's state
    /// lock grants it: between ticks the owner may feed it polled
    /// responses or drain what it queued.
    pub fn ctl_mut(&mut self) -> (r: &mut Ctl)
        ensures
            *r == old(self).spec_ctl(),
            final(self).spec_ctl() == *final(r),
            final(self).spec_config() == old(self).spec_config(),
    {
        &mut self.ctl
    }
}

} // verus!
