use vstd::prelude::*;

verus! {

/// Most click marks kept for the heat map.
pub const MAX_CLICK_MARKS: usize = 160;

/// Most round scores kept in the progress history.
pub const MAX_HISTORY: usize = 40;

/// Number of selectable scenarios.
pub const SCENARIO_COUNT: usize = 6;

/// How a round is played: click targets, or keep the cursor on a moving one.
#[derive(Clone, Copy, PartialEq, Eq, Structural, Debug)]
pub enum Mode {
    Click,
    Track,
}

/// Movement pattern of a tracking target.
#[derive(Clone, Copy, PartialEq, Eq, Structural, Debug)]
pub enum Pattern {
    Static,
    Strafe,
    Air,
    Blink,
    Arc,
    Dash,
}

/// A selectable training scenario.
#[derive(Clone, Copy, Debug)]
pub struct Scenario {
    pub mode: Mode,
    pub pattern: Pattern,
    pub name: &'static str,
}

/// A recorded click position (for the heat map) and whether it hit a target.
#[derive(Clone, Copy, PartialEq, Eq, Structural, Debug)]
pub struct ClickMark {
    pub x: i32,
    pub y: i32,
    pub hit: bool,
}

/// Mode of the scenario at index `i` of the table.
pub open spec fn scenario_mode(i: int) -> Mode {
    if i == 0 {
        Mode::Click
    } else {
        Mode::Track
    }
}

/// Pattern of the scenario at index `i` of the table.
pub open spec fn scenario_pattern(i: int) -> Pattern {
    if i == 0 {
        Pattern::Static
    } else if i == 1 {
        Pattern::Strafe
    } else if i == 2 {
        Pattern::Air
    } else if i == 3 {
        Pattern::Blink
    } else if i == 4 {
        Pattern::Arc
    } else {
        Pattern::Dash
    }
}

/// Display name of the scenario at index `i` of the table.
pub open spec fn scenario_name(i: int) -> Seq<char> {
    if i == 0 {
        "클릭 · 정적 다중"@
    } else if i == 1 {
        "트래킹 · 스트레이프"@
    } else if i == 2 {
        "트래킹 · 에어"@
    } else if i == 3 {
        "트래킹 · 트레이서(블링크)"@
    } else if i == 4 {
        "트래킹 · 파라(아크)"@
    } else {
        "트래킹 · 겐지(대시)"@
    }
}

/// The scenario at index `i` of the table: one click scenario with static
/// targets, then five tracking scenarios (strafe, air, blink, arc, dash).
pub fn scenario(i: usize) -> (s: Scenario)
    requires
        i < SCENARIO_COUNT,
    ensures
        s.mode == scenario_mode(i as int),
        s.pattern == scenario_pattern(i as int),
        s.name@ == scenario_name(i as int),
{
    match i {
        0 => Scenario { mode: Mode::Click, pattern: Pattern::Static, name: "클릭 · 정적 다중" },
        1 => Scenario { mode: Mode::Track, pattern: Pattern::Strafe, name: "트래킹 · 스트레이프" },
        2 => Scenario { mode: Mode::Track, pattern: Pattern::Air, name: "트래킹 · 에어" },
        3 => Scenario {
            mode: Mode::Track,
            pattern: Pattern::Blink,
            name: "트래킹 · 트레이서(블링크)",
        },
        4 => Scenario { mode: Mode::Track, pattern: Pattern::Arc, name: "트래킹 · 파라(아크)" },
        _ => Scenario { mode: Mode::Track, pattern: Pattern::Dash, name: "트래킹 · 겐지(대시)" },
    }
}

/// The index that follows `i` when cycling through the scenario table.
pub open spec fn spec_next_scenario(i: int) -> int {
    (i + 1) % (SCENARIO_COUNT as int)
}

/// Index of the next scenario in the table, wrapping after the last one.
pub fn next_scenario(i: usize) -> (n: usize)
    requires
        i < SCENARIO_COUNT,
    ensures
        n == spec_next_scenario(i as int),
        n < SCENARIO_COUNT,
        i + 1 < SCENARIO_COUNT ==> n == i + 1,
        i + 1 == SCENARIO_COUNT ==> n == 0,
{
    (i + 1) % SCENARIO_COUNT
}

/// Law: the next scenario is the following entry of the table, and after the
/// last entry comes the first.
pub proof fn lemma_next_is_following_entry(i: int)
    requires
        0 <= i < SCENARIO_COUNT,
    ensures
        i + 1 < SCENARIO_COUNT ==> spec_next_scenario(i) == i + 1,
        i == SCENARIO_COUNT - 1 ==> spec_next_scenario(i) == 0,
        0 <= spec_next_scenario(i) < SCENARIO_COUNT,
{
}

/// Law: cycling through the table `SCENARIO_COUNT` times from any valid index
/// comes back to it, and a single step never stays on the same index.
pub proof fn lemma_cycle_returns(i: int)
    requires
        0 <= i < SCENARIO_COUNT,
    ensures
        spec_next_scenario(spec_next_scenario(spec_next_scenario(spec_next_scenario(
            spec_next_scenario(spec_next_scenario(i)),
        )))) == i,
        forall|j: int|
            0 <= j < SCENARIO_COUNT ==> #[trigger] spec_next_scenario(j) != j,
{
}

} // verus!
