use aim_trainer::bounded::push_bounded;
use aim_trainer::chart::sparkline_x;
use aim_trainer::color::rgb;
use aim_trainer::model::{next_scenario, scenario, MAX_CLICK_MARKS, MAX_HISTORY, SCENARIO_COUNT};
use aim_trainer::{ClickMark, Mode, Pattern};

#[test]
fn scenario_table() {
    assert_eq!(SCENARIO_COUNT, 6);
    let s0 = scenario(0);
    assert_eq!(s0.mode, Mode::Click);
    assert_eq!(s0.pattern, Pattern::Static);
    assert_eq!(s0.name, "클릭 · 정적 다중");
    let expected = [
        (Pattern::Strafe, "트래킹 · 스트레이프"),
        (Pattern::Air, "트래킹 · 에어"),
        (Pattern::Blink, "트래킹 · 트레이서(블링크)"),
        (Pattern::Arc, "트래킹 · 파라(아크)"),
        (Pattern::Dash, "트래킹 · 겐지(대시)"),
    ];
    for (k, (p, name)) in expected.iter().enumerate() {
        let s = scenario(k + 1);
        assert_eq!(s.mode, Mode::Track);
        assert_eq!(s.pattern, *p);
        assert_eq!(s.name, *name);
    }
}

#[test]
fn scenario_cycle_wraps() {
    assert_eq!(next_scenario(0), 1);
    assert_eq!(next_scenario(4), 5);
    assert_eq!(next_scenario(5), 0);
    let mut i = 3;
    for _ in 0..SCENARIO_COUNT {
        i = next_scenario(i);
    }
    assert_eq!(i, 3);
}

#[test]
fn bounded_push_keeps_newest() {
    let mut v: Vec<u32> = Vec::new();
    for k in 0..5u32 {
        push_bounded(&mut v, k, 3);
    }
    assert_eq!(v, vec![2, 3, 4]);
    push_bounded(&mut v, 9, 3);
    assert_eq!(v, vec![3, 4, 9]);
}

#[test]
fn bounded_push_below_cap_appends() {
    let mut v = vec![1, 2];
    push_bounded(&mut v, 3, 5);
    assert_eq!(v, vec![1, 2, 3]);
}

#[test]
fn bounded_push_shrinks_oversized_log() {
    let mut v = vec![1, 2, 3, 4, 5, 6];
    push_bounded(&mut v, 7, 2);
    assert_eq!(v, vec![6, 7]);
    let mut w = vec![1];
    push_bounded(&mut w, 2, 0);
    assert!(w.is_empty());
}

#[test]
fn history_of_scores_is_bounded() {
    let mut h: Vec<f64> = Vec::new();
    for k in 0..(MAX_HISTORY + 10) {
        push_bounded(&mut h, k as f64, MAX_HISTORY);
    }
    assert_eq!(h.len(), 40);
    assert_eq!(h[0], 10.0);
    assert_eq!(*h.last().unwrap(), 49.0);
}

#[test]
fn click_marks_are_bounded() {
    let mut c: Vec<ClickMark> = Vec::new();
    for k in 0..200 {
        push_bounded(&mut c, ClickMark { x: k, y: -k, hit: k % 2 == 0 }, MAX_CLICK_MARKS);
    }
    assert_eq!(c.len(), 160);
    assert_eq!(c[0], ClickMark { x: 40, y: -40, hit: true });
    assert_eq!(c[159], ClickMark { x: 199, y: -199, hit: false });
}

#[test]
fn rgb_packs_colorref_layout() {
    assert_eq!(rgb((0x11, 0x22, 0x33)), 0x0033_2211);
    assert_eq!(rgb((37, 37, 38)), 0x0026_2525);
    assert_eq!(rgb((255, 0, 0)), 0xff);
    assert_eq!(rgb((0, 0, 255)), 0x00ff_0000);
    let v = rgb((86, 156, 214));
    assert_eq!(v & 0xff, 86);
    assert_eq!((v >> 8) & 0xff, 156);
    assert_eq!(v >> 16, 214);
}

#[test]
fn sparkline_spreads_points() {
    assert_eq!(sparkline_x(0, 2), 12);
    assert_eq!(sparkline_x(1, 2), 162);
    assert_eq!(sparkline_x(0, 4), 12);
    assert_eq!(sparkline_x(1, 4), 62);
    assert_eq!(sparkline_x(2, 4), 112);
    assert_eq!(sparkline_x(3, 4), 162);
    assert_eq!(sparkline_x(1, 40), 12 + 150 / 39);
    let mut prev = 0;
    for i in 0..40 {
        let x = sparkline_x(i, 40);
        assert!(x >= prev);
        prev = x;
    }
    assert_eq!(prev, 162);
}
