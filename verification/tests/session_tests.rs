use aim_trainer::model::MAX_CLICK_MARKS;
use aim_trainer::session::{round_is_recorded, Key, Session, Transition};
use aim_trainer::{ClickMark, Mode, Pattern};

#[test]
fn new_session_defaults() {
    let s = Session::new();
    assert_eq!(s.scenario_index(), 0);
    assert!(!s.is_running());
    assert!(!s.is_firing());
    assert!(!s.raw_input_ok());
    assert!(!s.show_heatmap());
    assert_eq!((s.hits(), s.misclicks(), s.expired()), (0, 0, 0));
    assert!(s.clicks().is_empty());
    assert_eq!(s.scn().mode, Mode::Click);
}

#[test]
fn start_refused_without_raw_input() {
    let mut s = Session::new();
    assert_eq!(s.start(), Transition::RefusedNoRawInput);
    assert!(!s.is_running());
    assert_eq!(s.toggle(), Transition::RefusedNoRawInput);
    assert!(!s.is_running());
}

#[test]
fn toggle_starts_and_stops() {
    let mut s = Session::new();
    s.set_raw_input_ok(true);
    assert_eq!(s.toggle(), Transition::Started);
    assert!(s.is_running());
    assert_eq!(s.start(), Transition::NoChange);
    assert_eq!(s.toggle(), Transition::Stopped);
    assert!(!s.is_running());
    assert_eq!(s.stop(), Transition::NoChange);
}

#[test]
fn start_clears_counters_but_keeps_clicks() {
    let mut s = Session::new();
    s.set_raw_input_ok(true);
    s.start();
    s.record_click(true, 1, 2);
    s.record_click(false, 3, 4);
    s.record_expired(3);
    s.stop();
    assert_eq!((s.hits(), s.misclicks(), s.expired()), (1, 1, 3));
    assert_eq!(s.start(), Transition::Started);
    assert_eq!((s.hits(), s.misclicks(), s.expired()), (0, 0, 0));
    assert_eq!(s.clicks().len(), 2);
}

#[test]
fn scenario_cycles_only_when_stopped() {
    let mut s = Session::new();
    assert!(s.cycle_scenario());
    assert_eq!(s.scenario_index(), 1);
    assert_eq!(s.scn().mode, Mode::Track);
    assert_eq!(s.scn().pattern, Pattern::Strafe);
    s.set_raw_input_ok(true);
    s.start();
    assert!(!s.cycle_scenario());
    assert_eq!(s.scenario_index(), 1);
    s.stop();
    for _ in 0..5 {
        s.cycle_scenario();
    }
    assert_eq!(s.scenario_index(), 0);
}

#[test]
fn heatmap_toggle_flips() {
    let mut s = Session::new();
    assert!(s.toggle_heatmap());
    assert!(!s.toggle_heatmap());
    assert!(!s.show_heatmap());
}

#[test]
fn firing_only_during_round() {
    let mut s = Session::new();
    assert_eq!(s.mouse_down(), None);
    assert!(!s.is_firing());
    s.set_raw_input_ok(true);
    s.start();
    assert_eq!(s.mouse_down(), Some(Mode::Click));
    assert!(s.is_firing());
    s.mouse_up();
    assert!(!s.is_firing());
    s.mouse_down();
    s.stop();
    assert!(!s.is_firing());
}

#[test]
fn mouse_down_reports_tracking_mode() {
    let mut s = Session::new();
    s.cycle_scenario();
    s.set_raw_input_ok(true);
    s.start();
    assert_eq!(s.mouse_down(), Some(Mode::Track));
}

#[test]
fn clicks_count_and_log() {
    let mut s = Session::new();
    s.record_click(true, 10, 20);
    s.record_click(false, -1, 5);
    s.record_click(false, 0, 0);
    assert_eq!(s.hits(), 1);
    assert_eq!(s.misclicks(), 2);
    assert_eq!(s.click_attempts(), 3);
    assert_eq!(s.clicks()[0], ClickMark { x: 10, y: 20, hit: true });
    assert_eq!(s.clicks()[2], ClickMark { x: 0, y: 0, hit: false });
    for k in 0..300 {
        s.record_click(k % 3 == 0, k, k);
    }
    assert_eq!(s.clicks().len(), MAX_CLICK_MARKS);
    assert_eq!(s.clicks()[MAX_CLICK_MARKS - 1], ClickMark { x: 299, y: 299, hit: false });
    assert_eq!(s.click_attempts(), 303);
}

#[test]
fn reset_clears_counters_and_log() {
    let mut s = Session::new();
    s.toggle_heatmap();
    s.record_click(true, 1, 1);
    s.record_expired(2);
    s.reset_stats();
    assert_eq!((s.hits(), s.misclicks(), s.expired()), (0, 0, 0));
    assert!(s.clicks().is_empty());
    assert!(s.show_heatmap());
}

#[test]
fn expired_counter_truncates_count_to_u32() {
    let mut s = Session::new();
    s.record_expired(4);
    s.record_expired(0);
    assert_eq!(s.expired(), 4);
}

#[test]
fn rounds_of_two_seconds_are_recorded() {
    assert!(!round_is_recorded(None));
    assert!(!round_is_recorded(Some(1_999_999_999)));
    assert!(round_is_recorded(Some(2_000_000_000)));
    assert!(round_is_recorded(Some(60_000_000_000)));
}

#[test]
fn keys_drive_the_round() {
    let mut s = Session::new();
    s.set_raw_input_ok(true);
    assert_eq!(s.press_key(Key::Escape), Transition::NoChange);
    assert_eq!(s.press_key(Key::F2), Transition::Started);
    assert_eq!(s.press_key(Key::Other), Transition::NoChange);
    assert!(s.is_running());
    assert_eq!(s.press_key(Key::Escape), Transition::Stopped);
    assert!(!s.is_running());
}

#[test]
fn focus_loss_stops_unless_to_start_button() {
    let mut s = Session::new();
    s.set_raw_input_ok(true);
    s.start();
    assert_eq!(s.focus_lost(true), Transition::NoChange);
    assert!(s.is_running());
    assert_eq!(s.focus_lost(false), Transition::Stopped);
    assert!(!s.is_running());
    assert_eq!(s.focus_lost(false), Transition::NoChange);
}
