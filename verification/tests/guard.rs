use antigravity_agent::guard::StateSaveGuard;
use antigravity_agent::guard::DEBOUNCE_MS;
use antigravity_agent::guard::SETTLE_DELAY_MS;

#[test]
fn debounce_two_calls_200ms_apart() {
    let mut g = StateSaveGuard::new(0);
    g.finish_restore();
    assert!(g.attempt_save(2000));
    assert!(!g.attempt_save(2200));
    assert!(g.attempt_save(3100));
}

#[test]
fn no_save_while_restoring() {
    let mut g = StateSaveGuard::new(0);
    assert!(g.restoring());
    assert!(!g.attempt_save(10_000));
    assert!(!g.attempt_save(1_000_000));
    assert!(g.restoring());
}

#[test]
fn first_save_debounced_against_construction_time() {
    let mut g = StateSaveGuard::new(500);
    g.finish_restore();
    assert!(!g.attempt_save(1000));
    assert!(g.attempt_save(1500));
}

#[test]
fn refused_save_does_not_move_the_clock() {
    let mut g = StateSaveGuard::new(0);
    g.finish_restore();
    assert!(g.attempt_save(1000));
    assert!(!g.attempt_save(1999));
    assert!(g.attempt_save(2000));
}

#[test]
fn finish_restore_is_idempotent() {
    let mut g = StateSaveGuard::new(0);
    g.finish_restore();
    g.finish_restore();
    assert!(!g.restoring());
    assert!(g.attempt_save(DEBOUNCE_MS));
}

#[test]
fn settle_delay_is_shorter_than_the_debounce_window() {
    assert!(SETTLE_DELAY_MS < DEBOUNCE_MS);
}
