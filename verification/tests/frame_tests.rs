use aim_trainer::field::TargetField;
use aim_trainer::frame::{click_frame, count_expired, fire, track_frame, ClickFrame};
use aim_trainer::session::Session;
use aim_trainer::{ClickMark, Mode};

const MS: u64 = 1_000_000;

fn running_session() -> Session {
    let mut s = Session::new();
    s.set_raw_input_ok(true);
    s.start();
    s
}

#[test]
fn count_expired_counts_old_targets() {
    let mut f: TargetField<u8> = TargetField::new();
    f.add(1, 0);
    f.add(2, 500 * MS);
    f.add(3, 0);
    assert_eq!(count_expired(&f, 1000 * MS, 1000), 2);
    assert_eq!(count_expired(&f, 999 * MS, 1000), 0);
    assert_eq!(f.len(), 3);
}

#[test]
fn click_frame_stopped_changes_nothing() {
    let mut s = Session::new();
    let mut f: TargetField<(u64, u64)> = TargetField::new();
    f.add((0, 0), 0);
    let mut rng: u64 = 1;
    let o = click_frame(&mut s, &mut f, &mut rng, 5000 * MS, 5000 * MS, 1000, 850, 4, |a, b| (a, b));
    assert_eq!(o, ClickFrame { expired: 0, spawned: false });
    assert_eq!(f.len(), 1);
    assert_eq!(rng, 1);
    assert_eq!(s.expired(), 0);
}

#[test]
fn click_frame_expires_then_spawns() {
    let mut s = running_session();
    let mut f: TargetField<(u64, u64)> = TargetField::new();
    f.add((7, 7), 0);
    f.add((8, 8), 900 * MS);
    let mut rng: u64 = 1;
    let o = click_frame(&mut s, &mut f, &mut rng, 1200 * MS, 1100 * MS, 1000, 850, 4, |a, b| (a, b));
    assert_eq!(o, ClickFrame { expired: 1, spawned: true });
    assert_eq!(s.expired(), 1);
    assert_eq!(f.len(), 2);
    assert_eq!(f.targets[0].item, (8, 8));
    // The two 53-bit draws from seed 1, x first.
    assert_eq!(f.targets[1].item, (1082269761u64 >> 11, 1152992998833853505u64 >> 11));
    assert_eq!(f.targets[1].born_ns, 1200 * MS);
    assert_eq!(f.last_spawn_ns, Some(1200 * MS));
    assert_eq!(rng, 1152992998833853505);
}

#[test]
fn click_frame_waits_for_spawn_interval_and_capacity() {
    let mut s = running_session();
    let mut f: TargetField<(u64, u64)> = TargetField::new();
    let mut rng: u64 = 3;
    let o = click_frame(&mut s, &mut f, &mut rng, 0, 0, 1000, 850, 2, |a, b| (a, b));
    assert!(o.spawned);
    let o = click_frame(&mut s, &mut f, &mut rng, 849 * MS, 849 * MS, 1000, 850, 2, |a, b| (a, b));
    assert!(!o.spawned);
    let o = click_frame(&mut s, &mut f, &mut rng, 850 * MS, 850 * MS, 10_000, 850, 2, |a, b| (a, b));
    assert!(o.spawned);
    let r = rng;
    let o = click_frame(&mut s, &mut f, &mut rng, 5000 * MS, 5000 * MS, 10_000, 850, 2, |a, b| (a, b));
    assert_eq!(o, ClickFrame { expired: 0, spawned: false });
    assert_eq!(f.len(), 2);
    assert_eq!(rng, r);
}

#[test]
fn click_frames_never_exceed_max_targets() {
    let mut s = running_session();
    let mut f: TargetField<(u64, u64)> = TargetField::new();
    let mut rng: u64 = 99;
    for k in 0..200u64 {
        let now = k * 100 * MS;
        click_frame(&mut s, &mut f, &mut rng, now, now, 3000, 50, 4, |a, b| (a, b));
        assert!(f.len() <= 4);
    }
}

#[test]
fn track_frame_keeps_one_target() {
    let mut s = Session::new();
    let mut f: TargetField<u8> = TargetField::new();
    assert!(!track_frame(&s, &mut f, 1, 5));
    assert!(f.is_empty());
    s.set_raw_input_ok(true);
    s.start();
    assert!(track_frame(&s, &mut f, 2, 5));
    assert_eq!(f.len(), 1);
    assert_eq!(f.targets[0].born_ns, 2);
    assert!(!track_frame(&s, &mut f, 3, 6));
    assert_eq!(f.len(), 1);
    assert_eq!(f.targets[0].item, 5);
}

#[test]
fn fire_outside_round_does_nothing() {
    let mut s = Session::new();
    let mut f: TargetField<u8> = TargetField::new();
    f.add(1, 0);
    assert!(fire(&mut s, &mut f, Some(0), 3, 4).is_none());
    assert_eq!(f.len(), 1);
    assert_eq!(s.click_attempts(), 0);
    assert!(!s.is_firing());
}

#[test]
fn fire_hit_takes_target_and_logs() {
    let mut s = running_session();
    let mut f: TargetField<u8> = TargetField::new();
    f.add(1, 10);
    f.add(2, 20);
    let r = fire(&mut s, &mut f, Some(1), 30, 40).unwrap();
    assert_eq!(r.mode, Mode::Click);
    let t = r.taken.unwrap();
    assert_eq!((t.item, t.born_ns), (2, 20));
    assert_eq!(f.len(), 1);
    assert_eq!((s.hits(), s.misclicks()), (1, 0));
    assert_eq!(s.clicks()[0], ClickMark { x: 30, y: 40, hit: true });
    assert!(s.is_firing());
}

#[test]
fn fire_miss_counts_miss() {
    let mut s = running_session();
    let mut f: TargetField<u8> = TargetField::new();
    f.add(1, 10);
    let r = fire(&mut s, &mut f, None, -5, 6).unwrap();
    assert!(r.taken.is_none());
    assert_eq!(f.len(), 1);
    assert_eq!((s.hits(), s.misclicks()), (0, 1));
    assert_eq!(s.clicks()[0], ClickMark { x: -5, y: 6, hit: false });
}

#[test]
fn fire_in_tracking_round_only_fires() {
    let mut s = Session::new();
    s.cycle_scenario();
    s.set_raw_input_ok(true);
    s.start();
    let mut f: TargetField<u8> = TargetField::new();
    f.add(1, 10);
    let r = fire(&mut s, &mut f, Some(0), 1, 1).unwrap();
    assert_eq!(r.mode, Mode::Track);
    assert!(r.taken.is_none());
    assert_eq!(f.len(), 1);
    assert_eq!(s.click_attempts(), 0);
    assert!(s.clicks().is_empty());
    assert!(s.is_firing());
}

#[test]
fn heat_map_log_stays_bounded_over_many_clicks() {
    let mut s = running_session();
    let mut f: TargetField<u8> = TargetField::new();
    for k in 0..500 {
        fire(&mut s, &mut f, None, k, k);
        assert!(s.clicks().len() <= 160);
    }
    assert_eq!(s.click_attempts(), 500);
}
