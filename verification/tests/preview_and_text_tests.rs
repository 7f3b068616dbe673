use map_browser::numfmt::{duration_display, format_hundredths, u32_to_string};
use map_browser::preview::{Preview, PreviewState, SinkCommand};
use map_browser::text::{date_prefix, str_contains, str_eq, truncate};
use map_browser::types::{PlayerInfo, Score};

#[test]
fn ten_volume_ups_from_ten_hundredths_reach_thirty() {
    let mut p = Preview::new();
    assert_eq!(p.volume, 10);
    for _ in 0..10 {
        p.inc_vol();
    }
    assert_eq!(p.volume, 30);
}

#[test]
fn volume_clamps_at_the_ceiling() {
    let mut p = Preview::new();
    for _ in 0..44 {
        p.inc_vol();
    }
    assert_eq!(p.volume, 98);
    assert_eq!(p.inc_vol(), Some(SinkCommand::SetVolume(100)));
    // at the ceiling, further presses change nothing and give no order
    assert_eq!(p.inc_vol(), None);
    assert_eq!(p.inc_vol(), None);
    assert_eq!(p.volume, 100);
}

#[test]
fn volume_floors_at_zero() {
    let mut p = Preview::new();
    for _ in 0..5 {
        p.dec_vol();
    }
    assert_eq!(p.volume, 0);
    assert_eq!(p.dec_vol(), None);
    assert_eq!(p.volume, 0);
}

#[test]
fn volume_steps_give_the_new_volume_to_the_sink() {
    let mut p = Preview::new();
    assert_eq!(p.inc_vol(), Some(SinkCommand::SetVolume(12)));
    assert_eq!(p.dec_vol(), Some(SinkCommand::SetVolume(10)));
}

#[test]
fn preview_state_cycle() {
    let mut p = Preview::new();
    assert_eq!(p.state, PreviewState::Stopped);
    assert_eq!(p.play(), SinkCommand::Restart);
    assert_eq!(p.state, PreviewState::Playing);
    assert_eq!(p.pause(), SinkCommand::Pause);
    assert_eq!(p.state, PreviewState::Paused);
    assert_eq!(p.resume(), SinkCommand::Resume);
    assert_eq!(p.state, PreviewState::Playing);
    assert_eq!(p.stop(), SinkCommand::Stop);
    assert_eq!(p.state, PreviewState::Stopped);
}

#[test]
fn truncate_keeps_a_character_budget() {
    assert_eq!(truncate("hello world", 5), "hello");
    assert_eq!(truncate("hello", 10), "hello");
    // a limit of 0 leaves the string whole
    assert_eq!(truncate("hello", 0), "hello");
    assert_eq!(truncate("héllo wörld", 4), "héll");
}

#[test]
fn date_prefix_cuts_at_the_time_marker() {
    assert_eq!(date_prefix("2023-01-05T00:00:00Z"), "2023-01-05");
    assert_eq!(date_prefix("no marker"), "no marker");
    assert_eq!(date_prefix(""), "");
    assert_eq!(date_prefix("Tstarts"), "");
}

#[test]
fn substring_and_equality_helpers() {
    assert!(str_contains("hello world", "lo wo"));
    assert!(str_contains("hello", ""));
    assert!(!str_contains("hello", "world"));
    assert!(!str_contains("ab", "abc"));
    assert!(str_eq("same", "same"));
    assert!(!str_eq("same", "sam"));
    assert!(!str_eq("same", "samE"));
}

#[test]
fn decimal_rendering() {
    assert_eq!(u32_to_string(0), "0");
    assert_eq!(u32_to_string(7), "7");
    assert_eq!(u32_to_string(90210), "90210");
    assert_eq!(format_hundredths(425), "4.25");
    assert_eq!(format_hundredths(1600), "16.00");
    assert_eq!(format_hundredths(7), "0.07");
    assert_eq!(duration_display(185), "3:5");
    assert_eq!(duration_display(59), "0:59");
    assert_eq!(duration_display(600), "10:0");
}

#[test]
fn total_misses_adds_both_counts() {
    let s = Score {
        rank: 1,
        leaderboard_player_info: PlayerInfo { name: "ace".to_owned() },
        base_score: 900,
        pp: 12345,
        bad_cuts: u32::MAX,
        missed_notes: u32::MAX,
    };
    assert_eq!(s.total_misses(), 2 * (u32::MAX as u64));
}
