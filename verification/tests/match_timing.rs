use std::time::{Duration, Instant};

use ftctui::clock::{timestamp_millis_of, timestamp_nanos_of};
use ftctui::match_timer::{sfx_schedule, Match, MatchPhase, MatchSFX};

const S: u128 = 1_000_000_000;

#[test]
fn phase_lengths() {
    assert_eq!(MatchPhase::Autonomous.length_seconds(), 30);
    assert_eq!(MatchPhase::Transition.length_seconds(), 8);
    assert_eq!(MatchPhase::Teleop.length_seconds(), 120);
    assert_eq!(MatchPhase::Ended.length_seconds(), 0);
    assert_eq!(MatchPhase::Teleop.length(), Duration::from_secs(120));
    assert_eq!(Match::length(), Duration::from_secs(158));
}

#[test]
fn phases_follow_each_other() {
    assert_eq!(MatchPhase::at_elapsed(0), MatchPhase::Autonomous);
    assert_eq!(MatchPhase::at_elapsed(30 * S - 1), MatchPhase::Autonomous);
    assert_eq!(MatchPhase::at_elapsed(30 * S), MatchPhase::Transition);
    assert_eq!(MatchPhase::at_elapsed(38 * S - 1), MatchPhase::Transition);
    assert_eq!(MatchPhase::at_elapsed(38 * S), MatchPhase::Teleop);
    assert_eq!(MatchPhase::at_elapsed(158 * S - 1), MatchPhase::Teleop);
    assert_eq!(MatchPhase::at_elapsed(158 * S), MatchPhase::Ended);
    assert_eq!(MatchPhase::at_elapsed(u128::MAX), MatchPhase::Ended);
}

#[test]
fn remaining_time_counts_down_to_the_phase_end() {
    assert_eq!(MatchPhase::remaining_at(0), 30 * S);
    assert_eq!(MatchPhase::remaining_at(10 * S), 20 * S);
    assert_eq!(MatchPhase::remaining_at(30 * S), 8 * S);
    assert_eq!(MatchPhase::remaining_at(100 * S), 58 * S);
    assert_eq!(MatchPhase::remaining_at(200 * S), 0);
}

#[test]
fn a_new_match_is_in_autonomous() {
    let m = Match::from_start_time(Instant::now());
    assert_eq!(m.phase(), MatchPhase::Autonomous);
    assert!(!m.is_over());
    assert!(m.remaining_in_phase() <= Duration::from_secs(30));
    assert!(m.remaining_in_phase() > Duration::from_secs(25));
}

#[test]
fn sound_effect_file_names() {
    assert_eq!(MatchSFX::MatchStart01.file_name(), "ftctui_01.wav");
    assert_eq!(MatchSFX::End06.file_name(), "ftctui_06.wav");
    assert_eq!(MatchSFX::Abortmatch.file_name(), "ftctui_abort.wav");
}

#[test]
fn timestamps_count_whole_units_and_never_go_back() {
    assert_eq!(timestamp_millis_of(2_999_999), 2);
    assert_eq!(timestamp_millis_of(3_000_000), 3);
    assert!(timestamp_millis_of(3_000_000) <= timestamp_millis_of(3_500_000));
    assert_eq!(timestamp_nanos_of(1234), 1234);
}

#[test]
fn cues_are_scheduled_through_the_match() {
    assert_eq!(
        sfx_schedule(),
        vec![
            (0, MatchSFX::MatchStart01),
            (30, MatchSFX::Drivers02),
            (35, MatchSFX::Countdown03),
            (38, MatchSFX::TeleopStart04),
            (128, MatchSFX::Endgame05),
            (158, MatchSFX::End06),
        ]
    );
}
