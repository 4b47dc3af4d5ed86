use vstd::prelude::*;
use crate::bounded::{keep_last, push_bounded};
use crate::model::{
    next_scenario, scenario, scenario_mode, scenario_name, scenario_pattern, spec_next_scenario, ClickMark, Mode,
    Scenario, MAX_CLICK_MARKS, SCENARIO_COUNT,
};

verus! {

/// Shortest round, in nanoseconds, whose result is recorded.
pub const MIN_RECORDED_ROUND_NS: u64 = 2_000_000_000;

/// Whether a round that lasted `elapsed_ns` (None when it never started) is
/// long enough to enter the best score, the history and the log.
pub fn round_is_recorded(elapsed_ns: Option<u64>) -> (b: bool)
    ensures
        b == (match elapsed_ns {
            Some(d) => d >= MIN_RECORDED_ROUND_NS,
            None => false,
        }),
{
    match elapsed_ns {
        Some(d) => d >= MIN_RECORDED_ROUND_NS,
        None => false,
    }
}

/// What a start, stop or toggle request did.
#[derive(Clone, Copy, PartialEq, Eq, Structural, Debug)]
pub enum Transition {
    /// A round began.
    Started,
    /// The running round ended.
    Stopped,
    /// A start was refused because raw mouse input is not available.
    RefusedNoRawInput,
    /// Nothing changed (start while running, stop while stopped).
    NoChange,
}

/// Keys the aim area reacts to.
#[derive(Clone, Copy, PartialEq, Eq, Structural, Debug)]
pub enum Key {
    /// Stops a running round.
    Escape,
    /// Starts or stops a round.
    F2,
    /// Any other key: ignored.
    Other,
}

/// The abstract state of a training session: the selected scenario, the
/// round flags, the round's counters and the heat-map click log.
pub struct SessionView {
    pub scenario: usize,
    pub running: bool,
    pub raw_input_ok: bool,
    pub firing: bool,
    pub show_heatmap: bool,
    pub hits: u32,
    pub misclicks: u32,
    pub expired: u32,
    pub clicks: Seq<ClickMark>,
}

impl SessionView {
    /// The state every session keeps: a valid scenario index, firing only
    /// during a round, a bounded click log, and click counters whose sum fits
    /// in `u32` (the click accuracy is taken over that sum).
    pub open spec fn wf(self) -> bool {
        &&& self.scenario < SCENARIO_COUNT
        &&& self.firing ==> self.running
        &&& self.clicks.len() <= MAX_CLICK_MARKS
        &&& self.hits + self.misclicks <= u32::MAX
    }

    /// The same state with the round counters cleared.
    pub open spec fn counters_cleared(self) -> SessionView {
        SessionView { hits: 0, misclicks: 0, expired: 0, ..self }
    }

    /// Start request: refused without raw input, ignored while running,
    /// otherwise a round begins with cleared counters and no button held.
    pub open spec fn after_start(self) -> (SessionView, Transition) {
        if self.running {
            (self, Transition::NoChange)
        } else if !self.raw_input_ok {
            (self, Transition::RefusedNoRawInput)
        } else {
            (SessionView { running: true, firing: false, ..self.counters_cleared() }, Transition::Started)
        }
    }

    /// Stop request: ends a running round and releases the button.
    pub open spec fn after_stop(self) -> (SessionView, Transition) {
        if !self.running {
            (self, Transition::NoChange)
        } else {
            (SessionView { running: false, firing: false, ..self }, Transition::Stopped)
        }
    }

    /// Start/stop button or F2: stops a running round, otherwise tries to start one.
    pub open spec fn after_toggle(self) -> (SessionView, Transition) {
        if self.running {
            self.after_stop()
        } else {
            self.after_start()
        }
    }

    /// A key pressed in the aim area.
    pub open spec fn after_key(self, key: Key) -> (SessionView, Transition) {
        match key {
            Key::Escape => self.after_stop(),
            Key::F2 => self.after_toggle(),
            Key::Other => (self, Transition::NoChange),
        }
    }

    /// The aim area lost the keyboard focus: the round stops, unless the
    /// focus went to the start/stop button (whose own toggle then decides).
    pub open spec fn after_focus_lost(self, to_start_button: bool) -> (SessionView, Transition) {
        if to_start_button {
            (self, Transition::NoChange)
        } else {
            self.after_stop()
        }
    }

    /// Mode button: the next scenario, only while no round runs.
    pub open spec fn after_cycle(self) -> SessionView {
        if self.running {
            self
        } else {
            SessionView { scenario: spec_next_scenario(self.scenario as int) as usize, ..self }
        }
    }

    /// Heat-map button: flips the heat-map display.
    pub open spec fn after_heatmap_toggle(self) -> SessionView {
        SessionView { show_heatmap: !self.show_heatmap, ..self }
    }

    /// Reset button: clears the counters and the click log.
    pub open spec fn after_reset(self) -> SessionView {
        SessionView { clicks: Seq::empty(), ..self.counters_cleared() }
    }

    /// Left button pressed: fires during a round.
    pub open spec fn after_mouse_down(self) -> SessionView {
        if self.running {
            SessionView { firing: true, ..self }
        } else {
            self
        }
    }

    /// Left button released.
    pub open spec fn after_mouse_up(self) -> SessionView {
        SessionView { firing: false, ..self }
    }

    /// A click in a click round, at (`x`, `y`), that hit a target or not.
    pub open spec fn after_click(self, hit: bool, x: i32, y: i32) -> SessionView {
        SessionView {
            hits: if hit { (self.hits + 1) as u32 } else { self.hits },
            misclicks: if hit { self.misclicks } else { (self.misclicks + 1) as u32 },
            clicks: keep_last(self.clicks.push(ClickMark { x, y, hit }), MAX_CLICK_MARKS as nat),
            ..self
        }
    }

    /// `n` targets ran out of time (the count is taken as `u32`, as by `as`).
    pub open spec fn after_expired(self, n: usize) -> SessionView {
        SessionView { expired: (self.expired + (n as u32)) as u32, ..self }
    }
}

/// A training session: which scenario is selected, whether a round runs,
/// the round's counters and the heat-map click log.
pub struct Session {
    scenario: usize,
    running: bool,
    raw_input_ok: bool,
    firing: bool,
    show_heatmap: bool,
    hits: u32,
    misclicks: u32,
    expired: u32,
    clicks: Vec<ClickMark>,
}

impl View for Session {
    type V = SessionView;

    closed spec fn view(&self) -> SessionView {
        SessionView {
            scenario: self.scenario,
            running: self.running,
            raw_input_ok: self.raw_input_ok,
            firing: self.firing,
            show_heatmap: self.show_heatmap,
            hits: self.hits,
            misclicks: self.misclicks,
            expired: self.expired,
            clicks: self.clicks@,
        }
    }
}

impl Session {
    /// Whether the session is in a state that every operation keeps.
    pub open spec fn wf(&self) -> bool {
        self@.wf()
    }

    /// A fresh session: first scenario, stopped, raw input not yet
    /// registered, heat map off, no counts, no clicks.
    pub fn new() -> (s: Self)
        ensures
            s.wf(),
            s@ == (SessionView {
                scenario: 0,
                running: false,
                raw_input_ok: false,
                firing: false,
                show_heatmap: false,
                hits: 0,
                misclicks: 0,
                expired: 0,
                clicks: Seq::empty(),
            }),
    {
        Session {
            scenario: 0,
            running: false,
            raw_input_ok: false,
            firing: false,
            show_heatmap: false,
            hits: 0,
            misclicks: 0,
            expired: 0,
            clicks: Vec::new(),
        }
    }

    /// Index of the selected scenario.
    pub fn scenario_index(&self) -> (i: usize)
        ensures
            i == self@.scenario,
    {
        self.scenario
    }

    /// The selected scenario.
    pub fn scn(&self) -> (s: Scenario)
        requires
            self.wf(),
        ensures
            s.mode == scenario_mode(self@.scenario as int),
            s.pattern == scenario_pattern(self@.scenario as int),
            s.name@ == scenario_name(self@.scenario as int),
    {
        scenario(self.scenario)
    }

    /// Whether a round is running.
    pub fn is_running(&self) -> (b: bool)
        ensures
            b == self@.running,
    {
        self.running
    }

    /// Whether the left button is held during a round.
    pub fn is_firing(&self) -> (b: bool)
        ensures
            b == self@.firing,
    {
        self.firing
    }

    /// Whether raw mouse input was registered.
    pub fn raw_input_ok(&self) -> (b: bool)
        ensures
            b == self@.raw_input_ok,
    {
        self.raw_input_ok
    }

    /// Whether the heat map is shown.
    pub fn show_heatmap(&self) -> (b: bool)
        ensures
            b == self@.show_heatmap,
    {
        self.show_heatmap
    }

    /// Targets hit this round.
    pub fn hits(&self) -> (n: u32)
        ensures
            n == self@.hits,
    {
        self.hits
    }

    /// Clicks that missed this round.
    pub fn misclicks(&self) -> (n: u32)
        ensures
            n == self@.misclicks,
    {
        self.misclicks
    }

    /// Targets that ran out of time this round.
    pub fn expired(&self) -> (n: u32)
        ensures
            n == self@.expired,
    {
        self.expired
    }

    /// All clicks of the round, hits and misses.
    pub fn click_attempts(&self) -> (n: u32)
        requires
            self.wf(),
        ensures
            n == self@.hits + self@.misclicks,
    {
        self.hits + self.misclicks
    }

    /// The heat-map click log, oldest first.
    pub fn clicks(&self) -> (c: &Vec<ClickMark>)
        ensures
            c@ == self@.clicks,
    {
        &self.clicks
    }

    /// Records whether raw mouse input could be registered.
    pub fn set_raw_input_ok(&mut self, ok: bool)
        requires
            old(self).wf(),
        ensures
            final(self).wf(),
            final(self)@ == (SessionView { raw_input_ok: ok, ..old(self)@ }),
    {
        self.raw_input_ok = ok;
    }

    /// Start request (see `SessionView::after_start`).
    pub fn start(&mut self) -> (t: Transition)
        requires
            old(self).wf(),
        ensures
            final(self).wf(),
            (final(self)@, t) == old(self)@.after_start(),
    {
        if self.running {
            return Transition::NoChange;
        }
        if !self.raw_input_ok {
            return Transition::RefusedNoRawInput;
        }
        self.hits = 0;
        self.misclicks = 0;
        self.expired = 0;
        self.firing = false;
        self.running = true;
        Transition::Started
    }

    /// Stop request (see `SessionView::after_stop`).
    pub fn stop(&mut self) -> (t: Transition)
        requires
            old(self).wf(),
        ensures
            final(self).wf(),
            (final(self)@, t) == old(self)@.after_stop(),
    {
        if !self.running {
            return Transition::NoChange;
        }
        self.running = false;
        self.firing = false;
        Transition::Stopped
    }

    /// Start/stop toggle (see `SessionView::after_toggle`).
    pub fn toggle(&mut self) -> (t: Transition)
        requires
            old(self).wf(),
        ensures
            final(self).wf(),
            (final(self)@, t) == old(self)@.after_toggle(),
    {
        if self.running {
            self.stop()
        } else {
            self.start()
        }
    }

    /// Key press in the aim area (see `SessionView::after_key`).
    pub fn press_key(&mut self, key: Key) -> (t: Transition)
        requires
            old(self).wf(),
        ensures
            final(self).wf(),
            (final(self)@, t) == old(self)@.after_key(key),
    {
        match key {
            Key::Escape => self.stop(),
            Key::F2 => self.toggle(),
            Key::Other => Transition::NoChange,
        }
    }

    /// Loss of keyboard focus (see `SessionView::after_focus_lost`).
    pub fn focus_lost(&mut self, to_start_button: bool) -> (t: Transition)
        requires
            old(self).wf(),
        ensures
            final(self).wf(),
            (final(self)@, t) == old(self)@.after_focus_lost(to_start_button),
    {
        if to_start_button {
            Transition::NoChange
        } else {
            self.stop()
        }
    }

    /// Selects the next scenario unless a round runs; returns whether it changed.
    pub fn cycle_scenario(&mut self) -> (changed: bool)
        requires
            old(self).wf(),
        ensures
            final(self).wf(),
            final(self)@ == old(self)@.after_cycle(),
            changed == !old(self)@.running,
    {
        if self.running {
            return false;
        }
        self.scenario = next_scenario(self.scenario);
        true
    }

    /// Flips the heat-map display and returns the new setting.
    pub fn toggle_heatmap(&mut self) -> (on: bool)
        requires
            old(self).wf(),
        ensures
            final(self).wf(),
            final(self)@ == old(self)@.after_heatmap_toggle(),
            on == final(self)@.show_heatmap,
    {
        self.show_heatmap = !self.show_heatmap;
        self.show_heatmap
    }

    /// Clears the round counters and the click log.
    pub fn reset_stats(&mut self)
        requires
            old(self).wf(),
        ensures
            final(self).wf(),
            final(self)@ == old(self)@.after_reset(),
    {
        self.hits = 0;
        self.misclicks = 0;
        self.expired = 0;
        self.clicks.clear();
        assert(self.clicks@ =~= Seq::<ClickMark>::empty());
    }

    /// Left button pressed: during a round the session fires and the
    /// scenario's mode is returned; otherwise nothing happens.
    pub fn mouse_down(&mut self) -> (mode: Option<Mode>)
        requires
            old(self).wf(),
        ensures
            final(self).wf(),
            final(self)@ == old(self)@.after_mouse_down(),
            mode == (if old(self)@.running {
                Some(scenario_mode(old(self)@.scenario as int))
            } else {
                None
            }),
    {
        if !self.running {
            return None;
        }
        self.firing = true;
        let s = scenario(self.scenario);
        Some(s.mode)
    }

    /// Left button released.
    pub fn mouse_up(&mut self)
        requires
            old(self).wf(),
        ensures
            final(self).wf(),
            final(self)@ == old(self)@.after_mouse_up(),
    {
        self.firing = false;
    }

    /// Counts a click at (`x`, `y`) as a hit or a miss and logs it for the
    /// heat map, keeping the newest `MAX_CLICK_MARKS` marks.
    pub fn record_click(&mut self, hit: bool, x: i32, y: i32)
        requires
            old(self).wf(),
            old(self)@.hits + old(self)@.misclicks < u32::MAX,
        ensures
            final(self).wf(),
            final(self)@ == old(self)@.after_click(hit, x, y),
    {
        if hit {
            self.hits = self.hits + 1;
        } else {
            self.misclicks = self.misclicks + 1;
        }
        push_bounded(&mut self.clicks, ClickMark { x, y, hit }, MAX_CLICK_MARKS);
    }

    /// Counts `n` targets that ran out of time.
    pub fn record_expired(&mut self, n: usize)
        requires
            old(self).wf(),
            old(self)@.expired + (n as u32) <= u32::MAX,
        ensures
            final(self).wf(),
            final(self)@ == old(self)@.after_expired(n),
    {
        self.expired = self.expired + (n as u32);
    }
}

/// Law: every operation keeps a well-formed session well-formed.
pub proof fn lemma_operations_keep_wf(v: SessionView, hit: bool, x: i32, y: i32, n: usize, ok: bool)
    requires
        v.wf(),
    ensures
        v.after_start().0.wf(),
        v.after_stop().0.wf(),
        v.after_toggle().0.wf(),
        v.after_cycle().wf(),
        v.after_heatmap_toggle().wf(),
        v.after_reset().wf(),
        v.after_mouse_down().wf(),
        v.after_mouse_up().wf(),
        v.hits + v.misclicks < u32::MAX ==> v.after_click(hit, x, y).wf(),
        v.expired + (n as u32) <= u32::MAX ==> v.after_expired(n).wf(),
        (SessionView { raw_input_ok: ok, ..v }).wf(),
{
}

/// Law: a start is refused exactly when no round runs and raw input is
/// missing, and a refused start changes nothing.
pub proof fn lemma_start_refused_iff_no_raw_input(v: SessionView)
    ensures
        (v.after_start().1 == Transition::RefusedNoRawInput) == (!v.running && !v.raw_input_ok),
        v.after_start().1 == Transition::RefusedNoRawInput ==> v.after_start().0 == v,
        (v.after_start().1 == Transition::Started) == (!v.running && v.raw_input_ok),
{
}

/// Law: starting a running round and stopping a stopped one change nothing.
pub proof fn lemma_start_stop_idempotent(v: SessionView)
    ensures
        v.running ==> v.after_start() == (v, Transition::NoChange),
        !v.running ==> v.after_stop() == (v, Transition::NoChange),
        v.after_start().0.after_start().0 == v.after_start().0,
        v.after_stop().0.after_stop().0 == v.after_stop().0,
{
}

/// Law: from a stopped session with raw input, toggling twice starts and then
/// ends a round; only the counters are reset and nothing fires.
pub proof fn lemma_toggle_twice(v: SessionView)
    requires
        v.wf(),
        !v.running,
        v.raw_input_ok,
    ensures
        v.after_toggle().1 == Transition::Started,
        v.after_toggle().0.after_toggle().1 == Transition::Stopped,
        v.after_toggle().0.after_toggle().0 == (SessionView { firing: false, ..v.counters_cleared() }),
{
}

/// Law: the scenario cannot change during a round; when stopped, cycling
/// through all scenarios returns to the selected one.
pub proof fn lemma_scenario_fixed_while_running(v: SessionView)
    requires
        v.wf(),
    ensures
        v.running ==> v.after_cycle() == v,
        !v.running ==> v.after_cycle().after_cycle().after_cycle().after_cycle().after_cycle().after_cycle() == v,
{
}

/// Law: toggling the heat map twice restores the session.
pub proof fn lemma_heatmap_toggle_involution(v: SessionView)
    ensures
        v.after_heatmap_toggle().after_heatmap_toggle() == v,
{
}

/// Law: a click adds exactly one attempt, counted as a hit or a miss, and its
/// mark becomes the newest in the heat-map log.
pub proof fn lemma_click_counts_once(v: SessionView, hit: bool, x: i32, y: i32)
    requires
        v.wf(),
        v.hits + v.misclicks < u32::MAX,
    ensures
        v.after_click(hit, x, y).hits + v.after_click(hit, x, y).misclicks == v.hits + v.misclicks + 1,
        v.after_click(hit, x, y).hits == v.hits + (if hit { 1int } else { 0int }),
        v.after_click(hit, x, y).clicks.last() == (ClickMark { x, y, hit }),
        v.after_click(hit, x, y).clicks.len() == if v.clicks.len() < MAX_CLICK_MARKS {
            v.clicks.len() + 1
        } else {
            MAX_CLICK_MARKS as nat
        },
{
}

/// Law: Escape and a loss of focus never start a round, and after either no
/// round runs unless the focus went to the start/stop button.
pub proof fn lemma_escape_and_focus_loss_stop(v: SessionView, to_start_button: bool)
    ensures
        !v.after_key(Key::Escape).0.running,
        v.after_key(Key::Escape).1 != Transition::Started,
        !to_start_button ==> !v.after_focus_lost(to_start_button).0.running,
        v.after_focus_lost(to_start_button).1 != Transition::Started,
        v.after_key(Key::Other).0 == v,
{
}

/// Law: the heat-map log never holds more than `MAX_CLICK_MARKS` marks,
/// however many clicks are recorded.
pub proof fn lemma_click_log_bounded(v: SessionView, hit: bool, x: i32, y: i32)
    requires
        v.wf(),
        v.hits + v.misclicks < u32::MAX,
    ensures
        v.after_click(hit, x, y).clicks.len() <= MAX_CLICK_MARKS,
        v.after_click(hit, x, y).wf(),
{
}

/// Law: releasing the button always stops firing, and pressing it outside a
/// round changes nothing.
pub proof fn lemma_fire_only_in_round(v: SessionView)
    ensures
        !v.after_mouse_up().firing,
        !v.running ==> v.after_mouse_down() == v,
        v.running ==> v.after_mouse_down().firing,
{
}

/// Law: stopping a running round clears `running` and `firing`, reports
/// `Stopped`, and leaves every other part of the session as it was.
pub proof fn lemma_stop_running_round(v: SessionView)
    requires
        v.running,
    ensures
        v.after_stop().1 == Transition::Stopped,
        !v.after_stop().0.running,
        !v.after_stop().0.firing,
        v.after_stop().0.scenario == v.scenario,
        v.after_stop().0.raw_input_ok == v.raw_input_ok,
        v.after_stop().0.show_heatmap == v.show_heatmap,
        v.after_stop().0.hits == v.hits,
        v.after_stop().0.misclicks == v.misclicks,
        v.after_stop().0.expired == v.expired,
        v.after_stop().0.clicks == v.clicks,
{
}

/// Law: a start from a stopped session with raw input begins a round with
/// all three counters at zero and the button released, keeping the scenario,
/// the heat-map setting and the click log.
pub proof fn lemma_start_stopped_round(v: SessionView)
    requires
        !v.running,
        v.raw_input_ok,
    ensures
        v.after_start().1 == Transition::Started,
        v.after_start().0.running,
        !v.after_start().0.firing,
        v.after_start().0.hits == 0,
        v.after_start().0.misclicks == 0,
        v.after_start().0.expired == 0,
        v.after_start().0.scenario == v.scenario,
        v.after_start().0.raw_input_ok,
        v.after_start().0.show_heatmap == v.show_heatmap,
        v.after_start().0.clicks == v.clicks,
{
}

/// Law: F2 is the start/stop toggle. On a running round it stops it (as the
/// Escape key does); on a stopped session it starts a round when raw input is
/// available and is refused otherwise.
pub proof fn lemma_f2_toggles(v: SessionView)
    ensures
        v.running ==> v.after_key(Key::F2).1 == Transition::Stopped,
        v.running ==> !v.after_key(Key::F2).0.running,
        v.running ==> v.after_key(Key::F2) == v.after_key(Key::Escape),
        !v.running && v.raw_input_ok ==> v.after_key(Key::F2).1 == Transition::Started,
        !v.running && v.raw_input_ok ==> v.after_key(Key::F2).0.running,
        !v.running && !v.raw_input_ok ==> v.after_key(Key::F2) == (v, Transition::RefusedNoRawInput),
        v.after_key(Key::F2).0.running != v.running || (!v.running && !v.raw_input_ok),
{
}

/// Law: the start/stop button and F2 do the same thing, and pressing either
/// twice from a running round stops it and then starts a fresh one.
pub proof fn lemma_toggle_matches_f2(v: SessionView)
    ensures
        v.after_toggle() == v.after_key(Key::F2),
        v.running && v.raw_input_ok ==> v.after_toggle().0.after_toggle().1 == Transition::Started,
        v.running ==> v.after_toggle().1 == Transition::Stopped,
{
}

/// Law: losing the focus to anything but the start/stop button behaves as
/// Escape; losing it to that button changes nothing.
pub proof fn lemma_focus_loss(v: SessionView)
    ensures
        v.after_focus_lost(false) == v.after_key(Key::Escape),
        v.after_focus_lost(true) == (v, Transition::NoChange),
        v.running ==> v.after_focus_lost(false).1 == Transition::Stopped,
{
}

/// Law: counting `n` expired targets adds `n` to the expired counter (when the
/// sum fits in `u32`) and changes nothing else; counting twice adds both.
pub proof fn lemma_expired_adds(v: SessionView, n: usize, m: usize)
    ensures
        v.expired + n <= u32::MAX ==> v.after_expired(n).expired == v.expired + n,
        v.expired + n + m <= u32::MAX ==> v.after_expired(n).after_expired(m).expired == v.expired
            + n + m,
        v.after_expired(0) == v,
        v.after_expired(n).hits == v.hits,
        v.after_expired(n).misclicks == v.misclicks,
        v.after_expired(n).running == v.running,
        v.after_expired(n).firing == v.firing,
        v.after_expired(n).scenario == v.scenario,
        v.after_expired(n).clicks == v.clicks,
{
    if v.expired + n <= u32::MAX {
        assert((n as u32) == n);
    }
    if v.expired + n + m <= u32::MAX {
        assert((n as u32) == n);
        assert((m as u32) == m);
    }
    assert((0usize as u32) == 0);
}

/// Law: a click is appended to the heat-map log as its newest mark. Below
/// capacity nothing is dropped; on a full log the oldest mark is dropped and
/// every other mark moves one place towards the front.
pub proof fn lemma_click_log_slides(v: SessionView, hit: bool, x: i32, y: i32)
    requires
        v.clicks.len() <= MAX_CLICK_MARKS,
    ensures
        v.clicks.len() < MAX_CLICK_MARKS ==> v.after_click(hit, x, y).clicks.len() == v.clicks.len() + 1,
        v.clicks.len() < MAX_CLICK_MARKS ==> forall|i: int|
            0 <= i < v.clicks.len() ==> #[trigger] v.after_click(hit, x, y).clicks[i] == v.clicks[i],
        v.clicks.len() == MAX_CLICK_MARKS ==> v.after_click(hit, x, y).clicks.len() == MAX_CLICK_MARKS,
        v.clicks.len() == MAX_CLICK_MARKS ==> forall|i: int|
            0 <= i < MAX_CLICK_MARKS - 1 ==> #[trigger] v.after_click(hit, x, y).clicks[i] == v.clicks[i
                + 1],
        v.after_click(hit, x, y).clicks[v.after_click(hit, x, y).clicks.len() - 1] == (ClickMark {
            x,
            y,
            hit,
        }),
{
}

/// Law: a hit adds one to the hit count and a miss one to the miss count; no
/// other part of the session but the click log changes.
pub proof fn lemma_click_counts(v: SessionView, hit: bool, x: i32, y: i32)
    requires
        v.hits + v.misclicks < u32::MAX,
    ensures
        hit ==> v.after_click(hit, x, y).hits == v.hits + 1,
        hit ==> v.after_click(hit, x, y).misclicks == v.misclicks,
        !hit ==> v.after_click(hit, x, y).misclicks == v.misclicks + 1,
        !hit ==> v.after_click(hit, x, y).hits == v.hits,
        v.after_click(hit, x, y).expired == v.expired,
        v.after_click(hit, x, y).running == v.running,
        v.after_click(hit, x, y).firing == v.firing,
        v.after_click(hit, x, y).scenario == v.scenario,
        v.after_click(hit, x, y).show_heatmap == v.show_heatmap,
{
}

/// Law: while stopped, the mode button selects the following entry of the
/// scenario table, going from the last back to the first.
pub proof fn lemma_cycle_next_entry(v: SessionView)
    requires
        v.wf(),
        !v.running,
    ensures
        v.scenario + 1 < SCENARIO_COUNT ==> v.after_cycle().scenario == v.scenario + 1,
        v.scenario + 1 == SCENARIO_COUNT ==> v.after_cycle().scenario == 0,
        v.after_cycle().clicks == v.clicks,
        v.after_cycle().hits == v.hits,
{
}

/// Law: pressing the button during a round fires and changes nothing else;
/// releasing it stops firing and changes nothing else; the heat-map button
/// flips only the heat-map setting; reset zeroes the counters and empties
/// the log and keeps the rest.
pub proof fn lemma_buttons(v: SessionView)
    ensures
        v.running ==> v.after_mouse_down() == (SessionView { firing: true, ..v }),
        v.after_mouse_up() == (SessionView { firing: false, ..v }),
        v.after_heatmap_toggle().show_heatmap == !v.show_heatmap,
        v.after_heatmap_toggle() == (SessionView { show_heatmap: !v.show_heatmap, ..v }),
        v.after_reset().hits == 0 && v.after_reset().misclicks == 0 && v.after_reset().expired == 0,
        v.after_reset().clicks.len() == 0,
        v.after_reset().running == v.running && v.after_reset().firing == v.firing
            && v.after_reset().scenario == v.scenario && v.after_reset().show_heatmap
            == v.show_heatmap && v.after_reset().raw_input_ok == v.raw_input_ok,
{
}

} // verus!
