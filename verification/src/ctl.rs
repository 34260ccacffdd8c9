//! The capability interface a robot controller offers its runner.

use vstd::prelude::*;

verus! {

/// The error a callback's result carries, if any: the form in which the
/// transition relations see a callback's outcome.
pub open spec fn callback_err<E>(r: Result<(), E>) -> Option<E> {
    match r {
        Ok(_) => None,
        Err(e) => Some(e),
    }
}

/// A controller for a robot: the pluggable decision-making unit behind one
/// agent. The runner drives it through `init`, repeated `tick`s, and
/// `kill`, and reads its publicly visible data between ticks.
///
/// Each lifecycle callback comes with a transition relation — a spec
/// function the implementing controller defines — tying the state before
/// the call, the state after, and the callback's result. The runner's own
/// contracts promise those relations, so a runner that skipped a callback
/// could not meet them: what the controller did is part of what the
/// runner guarantees.
pub trait RoboCtl: Sized {
    /// Type for internal robot data that is available to the world and
    /// renderer.
    type PublicData;

    /// Type for errors that might be thrown by callbacks.
    type Error;

    /// The states the controller keeps itself in: established by
    /// construction, preserved by every callback.
    spec fn wf(&self) -> bool;

    /// The publicly visible data of the current state, as a value.
    spec fn public_view(&self) -> Self::PublicData;

    /// What `init` does: how `post` and the error of the result, if any,
    /// relate to `pre`.
    spec fn init_rel(pre: Self, post: Self, err: Option<Self::Error>) -> bool;

    /// What one `tick` over `elapsed_micros` does: how `post` and the
    /// error of the result, if any, relate to `pre`.
    spec fn tick_rel(pre: Self, post: Self, elapsed_micros: u64, err: Option<
        Self::Error,
    >) -> bool;

    /// What `kill` does: how `post` and the error of the result, if any,
    /// relate to `pre`.
    spec fn kill_rel(pre: Self, post: Self, err: Option<Self::Error>) -> bool;

    /// Called when the robot is first initialised, before any ticks.
    fn init(&mut self) -> (r: Result<(), Self::Error>)
        requires
            old(self).wf(),
        ensures
            final(self).wf(),
            Self::init_rel(*old(self), *final(self), callback_err(r)),
    ;

    /// Called on each simulation tick. The elapsed time since the last
    /// tick (or initialisation) is provided in microseconds and is at
    /// most one second.
    fn tick(&mut self, elapsed_micros: u64) -> (r: Result<(), Self::Error>)
        requires
            old(self).wf(),
            elapsed_micros <= 1_000_000,
        ensures
            final(self).wf(),
            Self::tick_rel(*old(self), *final(self), elapsed_micros, callback_err(r)),
    ;

    /// Called when the robot needs to die, either because it has been
    /// destroyed or the simulation is over.
    fn kill(&mut self) -> (r: Result<(), Self::Error>)
        requires
            old(self).wf(),
        ensures
            final(self).wf(),
            Self::kill_rel(*old(self), *final(self), callback_err(r)),
    ;

    /// Fetch the public data.
    fn public_data(&self) -> (r: Self::PublicData)
        requires
            self.wf(),
        ensures
            r == self.public_view(),
    ;
}

} // verus!
