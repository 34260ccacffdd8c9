//! The tick lock that keeps every agent and the world on the same tick,
//! and the world driver that owns the agent set and publishes snapshots.
//!
//! The tick lock is modelled as an explicit protocol state machine. A
//! round admits every party (each agent plus the world) exactly once; a
//! party holds a `TickGuard` while it works on the tick and gives the
//! guard back to finish. In the running system the admission is a barrier
//! wait and the guard keeps a read lock on the run flag; here the same
//! protocol is a sequential transition system whose every step is stated
//! exactly, so the ordering guarantees of the design are proved rather
//! than trusted.

use vstd::prelude::*;
use crate::config::Config;
use crate::ctl::RoboCtl;
use crate::robo::{robo_killed, robo_ticked, Error, Robo, RunStep};

verus! {

/// A lock object used to coordinate the world's and the robots' ticks, so
/// that none gets ahead of any others.
///
/// A round of tick `K` proceeds in two phases: first every party is
/// admitted by `take` (the start barrier), then every party hands its
/// guard back through `release` (the end barrier). Only when all guards
/// of round `K` are back does the lock move to round `K + 1`. Stopping is
/// requested through a guard and takes effect when that guard is
/// released: every later round's `take` returns `None`.
pub struct TickLock {
    /// How many agents take part; the world is one more party.
    party_count: usize,

    /// Whether future rounds are still admitted.
    running: bool,

    /// The index of the current round.
    tick: u64,

    /// Parties admitted to the current round so far.
    admitted: usize,

    /// Guards of the current round already given back.
    released: usize,
}

/// A token indicating that the holding party is inside the current tick.
/// The tick ends for that party when the guard is given back through
/// `TickLock::release`.
#[derive(Debug)]
pub struct TickGuard {
    tick: u64,
    stop_requested: bool,
}

impl TickGuard {
    /// The round this guard was issued for.
    pub closed spec fn spec_tick(self) -> u64 {
        self.tick
    }

    /// Whether the holder has asked the world to stop.
    pub closed spec fn spec_stop_requested(self) -> bool {
        self.stop_requested
    }

    /// The round this guard was issued for.
    pub fn tick(&self) -> (r: u64)
        ensures
            r == self.spec_tick(),
    {
        self.tick
    }

    /// Stop the world: every round after the one this guard belongs to is
    /// refused. The request takes effect when this guard is released,
    /// which is the point where every other party of the current round
    /// has finished as well; parties already admitted keep their guards.
    /// Only the world calls this.
    pub fn stop(&mut self)
        ensures
            final(self).spec_tick() == old(self).spec_tick(),
            final(self).spec_stop_requested(),
    {
        self.stop_requested = true;
    }
}

/// The guard value a round issues: a spec-level constructor for stating
/// results.
pub closed spec fn spec_guard(tick: u64, stop_requested: bool) -> TickGuard {
    TickGuard { tick, stop_requested }
}

impl TickLock {
    /// One more than the agent count: every agent plus the world.
    pub closed spec fn spec_total(self) -> int {
        self.party_count + 1
    }

    /// Whether future rounds are still admitted.
    pub closed spec fn spec_running(self) -> bool {
        self.running
    }

    /// The index of the current round.
    pub closed spec fn spec_tick(self) -> u64 {
        self.tick
    }

    /// Parties admitted to the current round so far.
    pub closed spec fn spec_admitted(self) -> int {
        self.admitted as int
    }

    /// Guards of the current round already given back.
    pub closed spec fn spec_released(self) -> int {
        self.released as int
    }

    /// The states the protocol can reach: no more guards back than were
    /// handed out, no more handed out than there are parties, and room to
    /// count one admission per party.
    pub closed spec fn wf(self) -> bool {
        &&& self.party_count < usize::MAX
        &&& self.released <= self.admitted
        &&& self.admitted <= self.party_count + 1
    }

    /// A round boundary: no party of the current round was admitted yet.
    pub open spec fn at_round_start(self) -> bool {
        self.spec_admitted() == 0 && self.spec_released() == 0
    }

    /// What `take` returns: `None` once the lock is stopped, otherwise a
    /// guard for the current round with no stop request on it.
    pub open spec fn take_result(self) -> Option<TickGuard> {
        if self.spec_running() {
            Some(spec_guard(self.spec_tick(), false))
        } else {
            None
        }
    }

    /// The state after `take`: one more admission while running, no
    /// change once stopped.
    pub closed spec fn take_state(self) -> TickLock {
        if self.running {
            TickLock { admitted: (self.admitted + 1) as usize, ..self }
        } else {
            self
        }
    }

    /// The state after `release`: one more guard back; a stop request on
    /// the released guard turns the run flag off; when the last guard of
    /// the round is back, the lock moves to the next round.
    pub closed spec fn release_state(self, guard: TickGuard) -> TickLock {
        let run = self.running && !guard.stop_requested;
        if self.released + 1 == self.admitted && self.admitted == self.party_count + 1 {
            TickLock {
                running: run,
                tick: (self.tick + 1) as u64,
                admitted: 0,
                released: 0,
                ..self
            }
        } else {
            TickLock { running: run, released: (self.released + 1) as usize, ..self }
        }
    }

    /// Creates a lock for `party_count` agents plus the world, running,
    /// at round zero.
    pub fn new(party_count: usize) -> (r: Self)
        requires
            party_count < usize::MAX,
        ensures
            r.wf(),
            r.spec_total() == party_count + 1,
            r.spec_running(),
            r.spec_tick() == 0,
            r.at_round_start(),
    {
        TickLock { party_count, running: true, tick: 0, admitted: 0, released: 0 }
    }

    /// Try to take the lock. If the world is running, the caller is
    /// admitted to the current round and receives the round's guard.
    /// Otherwise `None` is returned at once, and forever after.
    ///
    /// In the running system a party that called `take` again before
    /// giving its guard back would deadlock the barrier; that misuse is a
    /// programming error the design leaves out of scope, and it is left
    /// out here by requiring a free slot in the round.
    pub fn take(&mut self) -> (r: Option<TickGuard>)
        requires
            old(self).wf(),
            old(self).spec_running() ==> old(self).spec_admitted() < old(self).spec_total(),
        ensures
            final(self).wf(),
            r == old(self).take_result(),
            r is Some <==> old(self).spec_running(),
            r is Some ==> (r->0).spec_tick() == old(self).spec_tick() && !(
            r->0).spec_stop_requested(),
            *final(self) == old(self).take_state(),
            final(self).spec_total() == old(self).spec_total(),
            final(self).spec_running() == old(self).spec_running(),
            final(self).spec_tick() == old(self).spec_tick(),
            final(self).spec_released() == old(self).spec_released(),
            old(self).spec_running() ==> final(self).spec_admitted() == old(self).spec_admitted()
                + 1,
            !old(self).spec_running() ==> *final(self) == *old(self),
    {
        if !self.running {
            return None;
        }
        self.admitted = self.admitted + 1;
        Some(TickGuard { tick: self.tick, stop_requested: false })
    }

    /// Gives a guard of the current round back, ending the holder's tick.
    /// When the last guard of the round comes back the lock advances to
    /// the next round, and a stop request carried by any released guard
    /// takes effect before that next round is admitted.
    ///
    /// A guard exists only when the whole round was admitted — in the
    /// running system no party passes the start barrier before all
    /// arrive — so release is called only with all parties admitted, with
    /// a guard of the current round, while not every guard is back yet.
    pub fn release(&mut self, guard: TickGuard)
        requires
            old(self).wf(),
            old(self).spec_admitted() == old(self).spec_total(),
            old(self).spec_released() < old(self).spec_admitted(),
            guard.spec_tick() == old(self).spec_tick(),
            old(self).spec_tick() < u64::MAX,
        ensures
            final(self).wf(),
            *final(self) == old(self).release_state(guard),
            final(self).spec_total() == old(self).spec_total(),
            final(self).spec_running() == (old(self).spec_running()
                && !guard.spec_stop_requested()),
            old(self).spec_released() + 1 == old(self).spec_admitted() ==> {
                &&& final(self).spec_tick() == old(self).spec_tick() + 1
                &&& final(self).at_round_start()
            },
            old(self).spec_released() + 1 < old(self).spec_admitted() ==> {
                &&& final(self).spec_tick() == old(self).spec_tick()
                &&& final(self).spec_admitted() == old(self).spec_admitted()
                &&& final(self).spec_released() == old(self).spec_released() + 1
            },
    {
        if guard.stop_requested {
            self.running = false;
        }
        if self.released + 1 == self.admitted {
            self.tick = self.tick + 1;
            self.admitted = 0;
            self.released = 0;
        } else {
            self.released = self.released + 1;
        }
    }
}


/// What one `take` transition does, stated over the lock's observables,
/// for callers outside this module that hold the transition equation.
pub proof fn lemma_take_state_observed(s: TickLock)
    requires
        s.wf(),
        s.spec_running() ==> s.spec_admitted() < s.spec_total(),
    ensures
        s.take_state().wf(),
        s.take_state().spec_total() == s.spec_total(),
        s.take_state().spec_running() == s.spec_running(),
        s.take_state().spec_tick() == s.spec_tick(),
        s.take_state().spec_released() == s.spec_released(),
        s.spec_running() ==> s.take_state().spec_admitted() == s.spec_admitted() + 1,
        !s.spec_running() ==> s.take_state() == s,
{
}

/// What one `release` transition does, stated over the lock's
/// observables, for callers outside this module that hold the transition
/// equation.
pub proof fn lemma_release_state_observed(s: TickLock, guard: TickGuard)
    requires
        s.wf(),
        s.spec_admitted() == s.spec_total(),
        s.spec_released() < s.spec_admitted(),
        s.spec_tick() < u64::MAX,
    ensures
        s.release_state(guard).wf(),
        s.release_state(guard).spec_total() == s.spec_total(),
        s.release_state(guard).spec_running() == (s.spec_running()
            && !guard.spec_stop_requested()),
        s.spec_released() + 1 == s.spec_admitted() ==> {
            &&& s.release_state(guard).spec_tick() == s.spec_tick() + 1
            &&& s.release_state(guard).at_round_start()
        },
        s.spec_released() + 1 < s.spec_admitted() ==> {
            &&& s.release_state(guard).spec_tick() == s.spec_tick()
            &&& s.release_state(guard).spec_admitted() == s.spec_admitted()
            &&& s.release_state(guard).spec_released() == s.spec_released() + 1
        },
{
}

/// The lock state after `n` parties in a row were admitted by `take`.
pub open spec fn take_n(s: TickLock, n: nat) -> TickLock
    decreases n,
{
    if n == 0 {
        s
    } else {
        take_n(s, (n - 1) as nat).take_state()
    }
}

/// The lock state after `n` guards of the current round, none carrying a
/// stop request, were given back in a row.
pub open spec fn release_n(s: TickLock, tick: u64, n: nat) -> TickLock
    decreases n,
{
    if n == 0 {
        s
    } else {
        release_n(s, tick, (n - 1) as nat).release_state(spec_guard(tick, false))
    }
}

/// Every party of a round is admitted to the same tick: starting a round
/// with `N + 1` parties, each of the `N + 1` calls to `take` is answered
/// with a guard, and every guard carries the round's tick index. No call
/// is refused and no party is held back to a later tick, which is the
/// barrier half of the design: all parties enter tick `K` together.
pub proof fn lemma_round_admits_all_to_same_tick(s: TickLock, i: nat)
    requires
        s.wf(),
        s.spec_running(),
        s.at_round_start(),
        i < s.spec_total(),
    ensures
        take_n(s, i).wf(),
        take_n(s, i).spec_total() == s.spec_total(),
        take_n(s, i).spec_running(),
        take_n(s, i).spec_tick() == s.spec_tick(),
        take_n(s, i).spec_admitted() == i,
        take_n(s, i).spec_released() == 0,
        take_n(s, i).take_result() == Some(spec_guard(s.spec_tick(), false)),
    decreases i,
{
    if i > 0 {
        lemma_round_admits_all_to_same_tick(s, (i - 1) as nat);
    }
}

/// After a full round — all `N + 1` parties admitted and all guards given
/// back without a stop request — the lock stands at the start of the next
/// round, still running, with the tick index advanced by exactly one. No
/// party can be admitted to tick `K + 1` before every party finished tick
/// `K`, because only the last release advances the round.
pub proof fn lemma_full_round_advances_one_tick(s: TickLock, j: nat)
    requires
        s.wf(),
        s.spec_running(),
        s.at_round_start(),
        s.spec_tick() < u64::MAX,
        j <= s.spec_total(),
    ensures
        ({
            let admitted = take_n(s, s.spec_total() as nat);
            let done = release_n(admitted, s.spec_tick(), j);
            &&& done.wf()
            &&& done.spec_total() == s.spec_total()
            &&& done.spec_running()
            &&& j < s.spec_total() ==> {
                &&& done.spec_tick() == s.spec_tick()
                &&& done.spec_admitted() == s.spec_total()
                &&& done.spec_released() == j
            }
            &&& j == s.spec_total() ==> {
                &&& done.spec_tick() == s.spec_tick() + 1
                &&& done.at_round_start()
            }
        }),
    decreases j,
{
    lemma_round_admits_all_to_same_tick(s, (s.spec_total() - 1) as nat);
    if j > 0 {
        lemma_full_round_advances_one_tick(s, (j - 1) as nat);
    }
}

/// The stop protocol: the world requests a stop on its guard during round
/// `K`. Every party of round `K` was already admitted normally (their
/// guards all carry tick `K`), every guard — the world's stopping one and
/// the other `N` plain ones, in any order — is given back without
/// blocking, and from then on the lock is stopped: every `take`, by any
/// party, returns `None`, forever. No party is left waiting.
pub proof fn lemma_stop_takes_effect_next_tick(s: TickLock, j: nat)
    requires
        s.wf(),
        s.spec_running(),
        s.at_round_start(),
        s.spec_tick() < u64::MAX,
        j <= s.spec_total() - 1,
    ensures
        // every party's take for round `K` itself completed normally
        forall|k: int|
            0 <= k < s.spec_total() ==> #[trigger] take_n(s, k as nat).take_result() == Some(
                spec_guard(s.spec_tick(), false),
            ),
        ({
            let admitted = take_n(s, s.spec_total() as nat);
            let stopped = admitted.release_state(spec_guard(s.spec_tick(), true));
            let done = release_n(stopped, s.spec_tick(), j);
            &&& done.wf()
            &&& done.spec_total() == s.spec_total()
            &&& !done.spec_running()
            &&& done.take_result() == None::<TickGuard>
            &&& done.take_state() == done
            &&& done.spec_tick() == s.spec_tick()
                || (done.spec_tick() == s.spec_tick() + 1 && done.at_round_start())
            &&& j < s.spec_total() - 1 ==> {
                &&& done.spec_tick() == s.spec_tick()
                &&& done.spec_admitted() == s.spec_total()
                &&& done.spec_released() == j + 1
            }
            &&& j == s.spec_total() - 1 ==> done.at_round_start()
        }),
    decreases j,
{
    assert forall|k: int|
        0 <= k < s.spec_total() implies #[trigger] take_n(s, k as nat).take_result() == Some(
        spec_guard(s.spec_tick(), false),
    ) by {
        lemma_round_admits_all_to_same_tick(s, k as nat);
    }
    lemma_round_admits_all_to_same_tick(s, (s.spec_total() - 1) as nat);
    if j > 0 {
        lemma_stop_takes_effect_next_tick(s, (j - 1) as nat);
    }
}

/// What one loop iteration of the world did.
#[derive(Clone, Copy, Debug, PartialEq, Eq, Structural)]
pub enum WorldStep {
    /// A tick was driven; the loop goes on.
    Ticked,

    /// The lock is stopped and every agent has observed the same; the
    /// loop is over.
    Finished,
}

/// A world in which a robot battle takes place: the full agent set and
/// the one published vector of their public snapshots.
pub struct World<Ctl: RoboCtl> {
    all_robos: Vec<Robo<Ctl>>,
    robos_data: Vec<Ctl::PublicData>,
    config: Config,
}

impl<Ctl: RoboCtl> World<Ctl> {
    /// The agents in spawn order.
    pub closed spec fn spec_robos(&self) -> Seq<Robo<Ctl>> {
        self.all_robos@
    }

    /// The published snapshot vector.
    pub closed spec fn spec_robos_data(&self) -> Seq<Ctl::PublicData> {
        self.robos_data@
    }

    /// The configuration the world runs under.
    pub closed spec fn spec_config(&self) -> Config {
        self.config
    }

    /// Every agent's controller is well formed and the snapshot vector
    /// carries one entry per agent.
    pub open spec fn wf(&self) -> bool {
        &&& forall|i: int|
            0 <= i < self.spec_robos().len() ==> #[trigger] self.spec_robos()[i].wf()
        &&& self.spec_robos_data().len() == self.spec_robos().len()
    }

    /// The snapshot vector reflects, entry by entry, exactly the agents'
    /// current public state: what a reader sees between two ticks is each
    /// controller's state as of the end of its most recently completed
    /// tick, never a state from a tick still in progress.
    pub open spec fn snapshots_current(&self) -> bool {
        &&& self.spec_robos_data().len() == self.spec_robos().len()
        &&& forall|i: int|
            0 <= i < self.spec_robos().len() ==> #[trigger] self.spec_robos_data()[i]
                == self.spec_robos()[i].spec_ctl().public_view()
    }

    /// Create a new world with the given configuration and robot
    /// controllers, together with the tick lock all parties will share,
    /// sized for one party per agent plus the world. The snapshot vector
    /// is pre-populated from the controllers as handed in.
    pub fn new(config: Config, robos: Vec<Ctl>) -> (r: (Self, TickLock))
        requires
            forall|i: int| 0 <= i < robos@.len() ==> #[trigger] robos@[i].wf(),
            robos@.len() < usize::MAX,
        ensures
            r.0.wf(),
            r.0.spec_config() == config,
            r.0.spec_robos().len() == robos@.len(),
            forall|i: int|
                0 <= i < robos@.len() ==> #[trigger] r.0.spec_robos()[i].spec_ctl() == robos@[i],
            forall|i: int|
                0 <= i < robos@.len() ==> #[trigger] r.0.spec_robos()[i].spec_config() == config,
            r.0.snapshots_current(),
            r.1.wf(),
            r.1.spec_total() == robos@.len() + 1,
            r.1.spec_running(),
            r.1.spec_tick() == 0,
            r.1.at_round_start(),
    {
        let party_count = robos.len();
        let tick_lock = TickLock::new(party_count);

        let mut all_robos: Vec<Robo<Ctl>> = Vec::new();
        let mut robos = robos;
        let ghost orig = robos@;
        while robos.len() > 0
            invariant
                all_robos@.len() + robos@.len() == orig.len(),
                robos@ == orig.subrange(all_robos@.len() as int, orig.len() as int),
                forall|i: int| 0 <= i < orig.len() ==> #[trigger] orig[i].wf(),
                forall|i: int|
                    0 <= i < all_robos@.len() ==> #[trigger] all_robos@[i].spec_ctl() == orig[i]
                        && all_robos@[i].spec_config() == config && all_robos@[i].wf(),
            decreases robos@.len(),
        {
            let ctl = robos.remove(0);
            assert(ctl == orig[all_robos@.len() as int]);
            all_robos.push(Robo::new(config, ctl));
            assert(robos@ =~= orig.subrange(all_robos@.len() as int, orig.len() as int));
        }

        let mut world = World { all_robos, robos_data: Vec::new(), config };
        world.publish_snapshots();
        proof {
            assert forall|i: int|
                0 <= i < orig.len() implies #[trigger] world.spec_robos()[i].spec_config()
                == config by {
                assert(world.spec_robos()[i].spec_ctl() == orig[i]);
            }
        }
        (world, tick_lock)
    }

    /// Get the robots so they can be run.
    pub fn all_robos(&self) -> (r: &Vec<Robo<Ctl>>)
        ensures
            r@ == self.spec_robos(),
    {
        &self.all_robos
    }

    /// Initialises the agent at `index`, as that agent's own thread does
    /// before its first tick: that controller's init transition happens,
    /// its result surfaces unchanged, and no other agent is touched.
    pub fn robo_init(&mut self, index: usize) -> (r: Result<(), Error<Ctl>>)
        requires
            old(self).wf(),
            index < old(self).spec_robos().len(),
        ensures
            final(self).wf(),
            final(self).spec_robos().len() == old(self).spec_robos().len(),
            final(self).spec_robos_data() == old(self).spec_robos_data(),
            final(self).spec_config() == old(self).spec_config(),
            forall|j: int|
                0 <= j < old(self).spec_robos().len() && j != index
                    ==> #[trigger] final(self).spec_robos()[j] == old(self).spec_robos()[j],
            final(self).spec_robos()[index as int].spec_config() == old(self).spec_robos()[
                index as int
            ].spec_config(),
            match r {
                Ok(()) => Ctl::init_rel(
                    old(self).spec_robos()[index as int].spec_ctl(),
                    final(self).spec_robos()[index as int].spec_ctl(),
                    None,
                ),
                Err(Error::Ctl(e)) => Ctl::init_rel(
                    old(self).spec_robos()[index as int].spec_ctl(),
                    final(self).spec_robos()[index as int].spec_ctl(),
                    Some(e),
                ),
                Err(_) => false,
            },
    {
        let robo = &mut self.all_robos[index];
        robo.init()
    }

    /// Lets the agent at `index` start one loop iteration, as
    /// `Robo::begin_tick` does.
    pub fn robo_begin_tick(&mut self, index: usize, tick_lock: &mut TickLock) -> (r: Result<
        Option<TickGuard>,
        Error<Ctl>,
    >)
        requires
            old(self).wf(),
            index < old(self).spec_robos().len(),
            old(tick_lock).wf(),
            old(tick_lock).spec_running() ==> old(tick_lock).spec_admitted() < old(
                tick_lock,
            ).spec_total(),
        ensures
            final(self).wf(),
            final(self).spec_robos().len() == old(self).spec_robos().len(),
            final(self).spec_robos_data() == old(self).spec_robos_data(),
            final(self).spec_config() == old(self).spec_config(),
            final(tick_lock).wf(),
            *final(tick_lock) == old(tick_lock).take_state(),
            forall|j: int|
                0 <= j < old(self).spec_robos().len() && j != index
                    ==> #[trigger] final(self).spec_robos()[j] == old(self).spec_robos()[j],
            final(self).spec_robos()[index as int].spec_config() == old(self).spec_robos()[
                index as int
            ].spec_config(),
            match r {
                Ok(Some(guard)) => {
                    &&& old(tick_lock).spec_running()
                    &&& Some(guard) == old(tick_lock).take_result()
                    &&& guard.spec_tick() == old(tick_lock).spec_tick()
                    &&& !guard.spec_stop_requested()
                    &&& final(self).spec_robos() == old(self).spec_robos()
                },
                Ok(None) => {
                    &&& !old(tick_lock).spec_running()
                    &&& Ctl::kill_rel(
                        old(self).spec_robos()[index as int].spec_ctl(),
                        final(self).spec_robos()[index as int].spec_ctl(),
                        None,
                    )
                },
                Err(Error::Ctl(e)) => {
                    &&& !old(tick_lock).spec_running()
                    &&& Ctl::kill_rel(
                        old(self).spec_robos()[index as int].spec_ctl(),
                        final(self).spec_robos()[index as int].spec_ctl(),
                        Some(e),
                    )
                },
                Err(_) => false,
            },
    {
        let ghost old_robos = self.all_robos@;
        let robo = &mut self.all_robos[index];
        let r = robo.begin_tick(tick_lock);
        proof {
            if r matches Ok(Some(_)) {
                assert(self.all_robos@ =~= old_robos);
            }
        }
        r
    }

    /// Lets the agent at `index` finish one loop iteration, as
    /// `Robo::finish_tick` does.
    pub fn robo_finish_tick(
        &mut self,
        index: usize,
        tick_lock: &mut TickLock,
        guard: TickGuard,
        elapsed_micros: u64,
    ) -> (r: Result<RunStep, Error<Ctl>>)
        requires
            old(self).wf(),
            index < old(self).spec_robos().len(),
            old(tick_lock).wf(),
            old(tick_lock).spec_admitted() == old(tick_lock).spec_total(),
            old(tick_lock).spec_released() < old(tick_lock).spec_admitted(),
            guard.spec_tick() == old(tick_lock).spec_tick(),
            old(tick_lock).spec_tick() < u64::MAX,
            elapsed_micros <= 1_000_000,
        ensures
            final(self).wf(),
            final(self).spec_robos().len() == old(self).spec_robos().len(),
            final(self).spec_robos_data() == old(self).spec_robos_data(),
            final(self).spec_config() == old(self).spec_config(),
            final(tick_lock).wf(),
            *final(tick_lock) == old(tick_lock).release_state(guard),
            forall|j: int|
                0 <= j < old(self).spec_robos().len() && j != index
                    ==> #[trigger] final(self).spec_robos()[j] == old(self).spec_robos()[j],
            final(self).spec_robos()[index as int].spec_config() == old(self).spec_robos()[
                index as int
            ].spec_config(),
            match r {
                Ok(step) => {
                    &&& step == RunStep::Ticked
                    &&& Ctl::tick_rel(
                        old(self).spec_robos()[index as int].spec_ctl(),
                        final(self).spec_robos()[index as int].spec_ctl(),
                        elapsed_micros,
                        None,
                    )
                },
                Err(Error::Ctl(e)) => Ctl::tick_rel(
                    old(self).spec_robos()[index as int].spec_ctl(),
                    final(self).spec_robos()[index as int].spec_ctl(),
                    elapsed_micros,
                    Some(e),
                ),
                Err(_) => false,
            },
    {
        let robo = &mut self.all_robos[index];
        robo.finish_tick(tick_lock, guard, elapsed_micros)
    }

    /// Exclusive access to the controller of the agent at `index`,
    /// between that agent's ticks, as `Robo::ctl_mut` grants it. No other
    /// agent, no snapshot and no configuration is touched; whether the
    /// reached controller stays well formed is the caller's to keep.
    pub fn robo_ctl_mut(&mut self, index: usize) -> (r: &mut Ctl)
        requires
            index < old(self).spec_robos().len(),
        ensures
            *r == old(self).spec_robos()[index as int].spec_ctl(),
            final(self).spec_robos().len() == old(self).spec_robos().len(),
            forall|j: int|
                0 <= j < old(self).spec_robos().len() && j != index
                    ==> #[trigger] final(self).spec_robos()[j] == old(self).spec_robos()[j],
            final(self).spec_robos()[index as int].spec_ctl() == *final(r),
            final(self).spec_robos()[index as int].spec_config() == old(self).spec_robos()[
                index as int
            ].spec_config(),
            final(self).spec_robos_data() == old(self).spec_robos_data(),
            final(self).spec_config() == old(self).spec_config(),
    {
        let robo = &mut self.all_robos[index];
        robo.ctl_mut()
    }

    /// Get the published robot data so that it can be drawn.
    pub fn robos_data(&self) -> (r: &Vec<Ctl::PublicData>)
        ensures
            r@ == self.spec_robos_data(),
    {
        &self.robos_data
    }

    /// Re-populates the published snapshot vector by reading every
    /// agent's public data in spawn order. Called between two barrier
    /// crossings of the world — that is, while no agent is inside a tick —
    /// so the batch never observes a partially mutated controller. The
    /// vector's contents are replaced as a whole, never mutated in place.
    pub fn publish_snapshots(&mut self)
        requires
            forall|i: int|
                0 <= i < old(self).spec_robos().len() ==> #[trigger] old(self).spec_robos()[i].wf(),
        ensures
            final(self).spec_robos() == old(self).spec_robos(),
            final(self).spec_config() == old(self).spec_config(),
            final(self).wf(),
            final(self).snapshots_current(),
    {
        proof {
            assert forall|j: int| 0 <= j < self.all_robos@.len() implies self.all_robos@[j].wf()
            by {
                assert(self.all_robos@[j] == old(self).spec_robos()[j]);
            }
        }
        let mut data: Vec<Ctl::PublicData> = Vec::new();
        let n = self.all_robos.len();
        let mut i: usize = 0;
        while i < n
            invariant
                n == self.all_robos@.len(),
                i <= n,
                data@.len() == i,
                forall|j: int|
                    0 <= j < n ==> #[trigger] self.all_robos@[j].wf(),
                forall|j: int|
                    0 <= j < i ==> #[trigger] data@[j]
                        == self.all_robos@[j].spec_ctl().public_view(),
            decreases n - i,
        {
            data.push(self.all_robos[i].public_data());
            i += 1;
        }
        self.robos_data = data;
    }

    /// Starts one loop iteration of the world: republishes the snapshot
    /// vector, then asks the tick lock for admission. A guard means the
    /// world is inside the tick and must follow up with `finish_tick`;
    /// `None` means the world has fully stopped and every agent has
    /// observed the same.
    pub fn begin_tick(&mut self, tick_lock: &mut TickLock) -> (r: Option<TickGuard>)
        requires
            old(self).wf(),
            old(tick_lock).wf(),
            old(tick_lock).spec_running() ==> old(tick_lock).spec_admitted() < old(
                tick_lock,
            ).spec_total(),
        ensures
            final(self).wf(),
            final(self).spec_robos() == old(self).spec_robos(),
            final(self).spec_config() == old(self).spec_config(),
            final(self).snapshots_current(),
            final(tick_lock).wf(),
            *final(tick_lock) == old(tick_lock).take_state(),
            r == old(tick_lock).take_result(),
            r is Some <==> old(tick_lock).spec_running(),
            r is Some ==> (r->0).spec_tick() == old(tick_lock).spec_tick() && !(
            r->0).spec_stop_requested(),
    {
        self.publish_snapshots();
        tick_lock.take()
    }


    /// Drives one whole tick round for every party, in the order the
    /// running system's threads interleave it: the world republishes the
    /// snapshot vector and is admitted, every agent is admitted, every
    /// agent's controller runs its tick, every agent gives its guard
    /// back, and the world — honouring a pending stop request — gives its
    /// guard back last. A controller error ends that agent's work but
    /// never the round: every guard still comes back, so the lock always
    /// reaches the next round boundary and nobody is left blocked.
    ///
    /// When the lock is already stopped, every party's `take` returns
    /// `None`, every controller is killed once, and the round reports
    /// `Finished`.
    ///
    /// The published snapshots are read before any controller runs, so a
    /// reader of `robos_data` sees every agent exactly as of the end of
    /// the previous round, never mid-tick.
    pub fn run_round(
        &mut self,
        tick_lock: &mut TickLock,
        elapsed_micros: u64,
        stop_requested: bool,
    ) -> (r: Result<WorldStep, Error<Ctl>>)
        requires
            old(self).wf(),
            old(tick_lock).wf(),
            old(tick_lock).at_round_start(),
            old(tick_lock).spec_total() == old(self).spec_robos().len() + 1,
            old(tick_lock).spec_tick() < u64::MAX,
            elapsed_micros <= 1_000_000,
        ensures
            final(self).wf(),
            final(self).spec_robos().len() == old(self).spec_robos().len(),
            final(self).spec_config() == old(self).spec_config(),
            final(tick_lock).wf(),
            final(tick_lock).at_round_start(),
            final(tick_lock).spec_total() == old(tick_lock).spec_total(),
            // the snapshots published for this round show each agent as it
            // stood when the round began
            final(self).spec_robos_data().len() == old(self).spec_robos().len(),
            forall|i: int|
                0 <= i < old(self).spec_robos().len()
                    ==> #[trigger] final(self).spec_robos_data()[i]
                    == old(self).spec_robos()[i].spec_ctl().public_view(),
            // a running lock advances by exactly one tick and keeps running
            // unless this round carried the stop request
            old(tick_lock).spec_running() ==> {
                &&& final(tick_lock).spec_tick() == old(tick_lock).spec_tick() + 1
                &&& final(tick_lock).spec_running() == !stop_requested
                &&& (r is Ok ==> r == Ok::<WorldStep, Error<Ctl>>(WorldStep::Ticked))
            },
            // a stopped lock stays stopped, at the same tick
            !old(tick_lock).spec_running() ==> {
                &&& *final(tick_lock) == *old(tick_lock)
                &&& (r is Ok ==> r == Ok::<WorldStep, Error<Ctl>>(WorldStep::Finished))
            },
            // every controller went through its transition for this round —
            // a tick while running, its kill once stopped — each with an
            // outcome of its own; a clean round means every outcome was
            // success
            old(tick_lock).spec_running() ==> forall|i: int|
                0 <= i < old(self).spec_robos().len() ==> robo_ticked(
                    old(self).spec_robos()[i],
                    #[trigger] final(self).spec_robos()[i],
                    elapsed_micros,
                    r is Ok,
                ),
            !old(tick_lock).spec_running() ==> forall|i: int|
                0 <= i < old(self).spec_robos().len() ==> robo_killed(
                    old(self).spec_robos()[i],
                    #[trigger] final(self).spec_robos()[i],
                    r is Ok,
                ),
            r is Err ==> r matches Err(Error::Ctl(_)),
    {
        let ghost pre_robos = self.all_robos@;
        let n = self.all_robos.len();

        // The world publishes and is admitted first.
        let world_guard = self.begin_tick(tick_lock);

        match world_guard {
            None => {
                // The world has stopped; every agent observes the same and
                // kills its controller.
                let mut first_err: Option<Error<Ctl>> = None;
                let mut i: usize = 0;
                while i < n
                    invariant
                        n == self.all_robos@.len() == pre_robos.len(),
                        i <= n,
                        self.wf(),
                        self.spec_config() == old(self).spec_config(),
                        self.spec_robos_data().len() == pre_robos.len(),
                        forall|j: int|
                            0 <= j < pre_robos.len() ==> #[trigger] self.spec_robos_data()[j]
                                == pre_robos[j].spec_ctl().public_view(),
                        !tick_lock.spec_running(),
                        tick_lock.wf(),
                        *tick_lock == old(tick_lock).take_state(),
                        first_err is Some ==> first_err matches Some(Error::Ctl(_)),
                        forall|j: int|
                            i <= j < n ==> #[trigger] self.spec_robos()[j] == pre_robos[j],
                        forall|j: int|
                            0 <= j < i ==> robo_killed(
                                pre_robos[j],
                                #[trigger] self.spec_robos()[j],
                                false,
                            ),
                        first_err is None ==> forall|j: int|
                            0 <= j < i ==> robo_killed(
                                pre_robos[j],
                                #[trigger] self.spec_robos()[j],
                                true,
                            ),
                    decreases n - i,
                {
                    match self.robo_begin_tick(i, tick_lock) {
                        Ok(_) => (),
                        Err(e) => {
                            if first_err.is_none() {
                                first_err = Some(e);
                            }
                        },
                    }
                    i += 1;
                }
                match first_err {
                    None => Ok(WorldStep::Finished),
                    Some(e) => Err(e),
                }
            },
            Some(world_guard) => {
                let ghost tick = tick_lock.spec_tick();

                // Every agent is admitted to the same round.
                let mut guards: Vec<TickGuard> = Vec::new();
                let mut i: usize = 0;
                while i < n
                    invariant
                        n == self.all_robos@.len() == pre_robos.len(),
                        i <= n,
                        self.wf(),
                        self.spec_robos() == pre_robos,
                        self.spec_robos_data().len() == pre_robos.len(),
                        forall|j: int|
                            0 <= j < pre_robos.len() ==> #[trigger] self.spec_robos_data()[j]
                                == pre_robos[j].spec_ctl().public_view(),
                        self.spec_config() == old(self).spec_config(),
                        tick_lock.wf(),
                        tick_lock.spec_running(),
                        tick_lock.spec_tick() == tick,
                        tick_lock.spec_total() == n + 1,
                        tick_lock.spec_admitted() == i + 1,
                        tick_lock.spec_released() == 0,
                        guards@.len() == i,
                        forall|j: int|
                            0 <= j < i ==> (#[trigger] guards@[j]).spec_tick() == tick
                                && !guards@[j].spec_stop_requested(),
                    decreases n - i,
                {
                    match self.robo_begin_tick(i, tick_lock) {
                        Ok(Some(guard)) => {
                            guards.push(guard);
                        },
                        Ok(None) => {
                            // unreachable: the lock is running
                            proof {
                                assert(false);
                            }
                        },
                        Err(_) => {
                            proof {
                                assert(false);
                            }
                        },
                    }
                    i += 1;
                }

                // Every agent runs its controller between the two barrier
                // crossings and gives its guard back; a failure is kept,
                // not spread.
                let mut first_err: Option<Error<Ctl>> = None;
                let mut i: usize = 0;
                while i < n
                    invariant
                        n == self.all_robos@.len() == pre_robos.len(),
                        i <= n,
                        self.wf(),
                        self.spec_config() == old(self).spec_config(),
                        self.spec_robos_data().len() == pre_robos.len(),
                        forall|j: int|
                            0 <= j < pre_robos.len() ==> #[trigger] self.spec_robos_data()[j]
                                == pre_robos[j].spec_ctl().public_view(),
                        tick_lock.wf(),
                        tick_lock.spec_running(),
                        tick_lock.spec_tick() == tick,
                        tick_lock.spec_tick() < u64::MAX,
                        tick_lock.spec_total() == n + 1,
                        tick_lock.spec_admitted() == n + 1,
                        tick_lock.spec_released() == i,
                        guards@.len() == n - i,
                        elapsed_micros <= 1_000_000,
                        forall|j: int|
                            0 <= j < guards@.len() ==> (#[trigger] guards@[j]).spec_tick() == tick
                                && !guards@[j].spec_stop_requested(),
                        first_err is Some ==> first_err matches Some(Error::Ctl(_)),
                        forall|j: int|
                            i <= j < n ==> #[trigger] self.spec_robos()[j] == pre_robos[j],
                        forall|j: int|
                            0 <= j < i ==> robo_ticked(
                                pre_robos[j],
                                #[trigger] self.spec_robos()[j],
                                elapsed_micros,
                                false,
                            ),
                        first_err is None ==> forall|j: int|
                            0 <= j < i ==> robo_ticked(
                                pre_robos[j],
                                #[trigger] self.spec_robos()[j],
                                elapsed_micros,
                                true,
                            ),
                    decreases n - i,
                {
                    let guard = guards.pop().unwrap();
                    match self.robo_finish_tick(i, tick_lock, guard, elapsed_micros) {
                        Ok(_) => (),
                        Err(e) => {
                            if first_err.is_none() {
                                first_err = Some(e);
                            }
                        },
                    }
                    i += 1;
                }

                // The world finishes last, honouring the stop request.
                let _ = self.finish_tick(tick_lock, world_guard, stop_requested);

                match first_err {
                    None => Ok(WorldStep::Ticked),
                    Some(e) => Err(e),
                }
            },
        }
    }

    /// Finishes one loop iteration of the world: honours a pending stop
    /// request by invoking the guard's stop path — the world is the only
    /// party allowed to do that — then gives the guard back. Frame pacing
    /// (sleeping out the rest of the tick budget) is wall-clock work that
    /// stays with the caller, between `begin_tick` and `finish_tick`.
    pub fn finish_tick(
        &mut self,
        tick_lock: &mut TickLock,
        guard: TickGuard,
        stop_requested: bool,
    ) -> (r: WorldStep)
        requires
            old(self).wf(),
            old(tick_lock).wf(),
            old(tick_lock).spec_admitted() == old(tick_lock).spec_total(),
            old(tick_lock).spec_released() < old(tick_lock).spec_admitted(),
            guard.spec_tick() == old(tick_lock).spec_tick(),
            !guard.spec_stop_requested(),
            old(tick_lock).spec_tick() < u64::MAX,
        ensures
            *final(self) == *old(self),
            final(tick_lock).wf(),
            *final(tick_lock) == old(tick_lock).release_state(
                spec_guard(guard.spec_tick(), stop_requested),
            ),
            r == WorldStep::Ticked,
    {
        let mut guard = guard;
        if stop_requested {
            guard.stop();
        }
        tick_lock.release(guard);
        WorldStep::Ticked
    }
}

} // verus!
