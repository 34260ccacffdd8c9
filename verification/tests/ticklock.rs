//! The tick lock's round protocol and its stop path.

use battlebots::world::TickLock;

#[test]
fn round_admits_all_parties_to_same_tick() {
    // Two agents plus the world: every take in a round answers with a
    // guard for the same tick, and the next round starts one tick later.
    let mut lock = TickLock::new(2);

    let g_world = lock.take().expect("world admitted");
    let g_a = lock.take().expect("agent a admitted");
    let g_b = lock.take().expect("agent b admitted");
    assert_eq!(g_world.tick(), 0);
    assert_eq!(g_a.tick(), 0);
    assert_eq!(g_b.tick(), 0);

    lock.release(g_a);
    lock.release(g_world);
    lock.release(g_b);

    let g2 = lock.take().expect("next round admitted");
    assert_eq!(g2.tick(), 1);
}

#[test]
fn zero_agents_round_still_turns() {
    // The world alone is one party; rounds advance with no agents at all.
    let mut lock = TickLock::new(0);
    for expected in 0..5u64 {
        let guard = lock.take().expect("world admitted");
        assert_eq!(guard.tick(), expected);
        lock.release(guard);
    }
}

#[test]
fn stop_lets_current_round_finish_and_refuses_the_next() {
    // The world stops during tick 0. Every party of tick 0 was admitted
    // normally; every take after the round returns None, forever.
    let mut lock = TickLock::new(1);

    let mut g_world = lock.take().expect("world admitted to tick 0");
    let g_agent = lock.take().expect("agent admitted to tick 0");
    assert_eq!(g_agent.tick(), 0);

    g_world.stop();
    lock.release(g_world);
    lock.release(g_agent);

    assert!(lock.take().is_none());
    assert!(lock.take().is_none());
}
