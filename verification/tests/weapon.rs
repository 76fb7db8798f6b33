use bow_rogue::weapon::{request_fire_step, FireStep};

#[test]
fn weapon_waits_for_both_timers() {
    assert_eq!(request_fire_step(false, true, true, true), FireStep::Wait);
    assert_eq!(request_fire_step(true, false, true, true), FireStep::Wait);
    assert_eq!(request_fire_step(false, false, false, false), FireStep::Wait);
}

#[test]
fn weapon_retries_without_owner_or_target() {
    assert_eq!(request_fire_step(true, true, false, true), FireStep::Retry);
    assert_eq!(request_fire_step(true, true, true, false), FireStep::Retry);
}

#[test]
fn weapon_fires_when_ready_and_aimed() {
    assert_eq!(request_fire_step(true, true, true, true), FireStep::Fire);
}
