use bow_rogue::player::Player;
use bow_rogue::text::{format_time, gold_text, kills_text, xp_text};

fn whole_seconds(seconds: f32) -> u64 {
    seconds.max(0.0).floor() as u64
}

#[test]
fn formats_clear_time_as_minutes_and_seconds() {
    assert_eq!(format_time(whole_seconds(0.0)), "00:00");
    assert_eq!(format_time(whole_seconds(125.8)), "02:05");
}

#[test]
fn formats_elapsed_time_as_minutes_and_seconds() {
    assert_eq!(format_time(whole_seconds(0.0)), "00:00");
    assert_eq!(format_time(whole_seconds(65.9)), "01:05");
}

#[test]
fn clock_pads_and_grows_past_two_digits() {
    assert_eq!(format_time(9), "00:09");
    assert_eq!(format_time(59), "00:59");
    assert_eq!(format_time(60), "01:00");
    assert_eq!(format_time(600), "10:00");
    assert_eq!(format_time(5999), "99:59");
    assert_eq!(format_time(6000), "100:00");
    assert_eq!(format_time(whole_seconds(-3.0)), "00:00");
}

#[test]
fn xp_line_shows_level_and_progress() {
    let p = Player::initialize();
    assert_eq!(xp_text(&p), "LV 1  0/10 XP");
    let q = Player { level: 12, xp: 305, xp_to_next: 4000000000 };
    assert_eq!(xp_text(&q), "LV 12  305/4000000000 XP");
}

#[test]
fn counters_show_gold_and_kills() {
    assert_eq!(gold_text(0), "金币 0");
    assert_eq!(gold_text(1234), "金币 1234");
    assert_eq!(kills_text(7), "击杀 7");
    assert_eq!(kills_text(usize::MAX), format!("击杀 {}", usize::MAX));
}
