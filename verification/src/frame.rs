use vstd::prelude::*;
use crate::field::{alive_targets, spec_spawn_due, Spawned, TargetField};
use crate::model::{scenario_mode, Mode, MAX_CLICK_MARKS};
use crate::rng::{rng_bits53, xorshift};
use crate::session::Session;

verus! {

/// Number of targets of `s` whose lifetime has run out at `check_ns`.
pub open spec fn expired_count<T>(s: Seq<Spawned<T>>, check_ns: u64, life_ms: u64) -> int {
    s.len() - alive_targets(s, check_ns, life_ms).len()
}

/// What one frame of a click round did.
#[derive(Clone, Copy, PartialEq, Eq, Structural, Debug)]
pub struct ClickFrame {
    /// Targets whose lifetime ran out.
    pub expired: usize,
    /// Whether a new target appeared.
    pub spawned: bool,
}

/// What a press of the left button did during a round.
pub struct Fired<T> {
    /// The mode of the round.
    pub mode: Mode,
    /// The target that was hit and taken off the field, in a click round.
    pub taken: Option<Spawned<T>>,
}

/// How many targets of the field have run out of time at `check_ns`.
pub fn count_expired<T>(field: &TargetField<T>, check_ns: u64, life_ms: u64) -> (n: usize)
    ensures
        n == expired_count(field.targets@, check_ns, life_ms),
{
    let ghost s = field.targets@;
    let ghost pred = |t: Spawned<T>| crate::field::is_alive(t.born_ns, check_ns, life_ms);
    let len = field.targets.len();
    let mut alive: usize = 0;
    let mut i: usize = 0;
    while i < len
        invariant
            len == s.len(),
            s == field.targets@,
            pred == (|t: Spawned<T>| crate::field::is_alive(t.born_ns, check_ns, life_ms)),
            i <= len,
            alive == s.subrange(0, i as int).filter(pred).len(),
            alive <= i,
        decreases len - i,
    {
        proof {
            assert(s.subrange(0, i + 1) =~= s.subrange(0, i as int).push(s[i as int]));
            s.subrange(0, i as int).lemma_filter_push(s[i as int], pred);
        }
        let age = crate::field::millis_between(field.targets[i].born_ns, check_ns);
        if age < life_ms {
            alive = alive + 1;
        }
        i = i + 1;
    }
    proof {
        assert(s.subrange(0, len as int) =~= s);
    }
    len - alive
}

/// One frame of a click round. While a round runs: the targets whose lifetime
/// of `life_ms` has run out at `check_ns` leave the field and are counted in
/// the session; then, when a target is due (see `spec_spawn_due`), two
/// 53-bit draws from `rng` (x first, then y) are handed to `place`, and the
/// target it builds appears, born at `now_ns`. A stopped session changes
/// nothing.
pub fn click_frame<T, F: Fn(u64, u64) -> T>(
    session: &mut Session,
    field: &mut TargetField<T>,
    rng: &mut u64,
    now_ns: u64,
    check_ns: u64,
    life_ms: u64,
    spawn_ms: u64,
    max_targets: usize,
    place: F,
) -> (o: ClickFrame)
    requires
        old(session).wf(),
        old(field).targets@.len() < usize::MAX,
        old(session)@.running ==> old(session)@.expired + (expired_count(
            old(field).targets@,
            check_ns,
            life_ms,
        ) as usize as u32) <= u32::MAX,
        forall|a: u64, b: u64| call_requires(place, (a, b)),
    ensures
        final(session).wf(),
        !old(session)@.running ==> {
            &&& final(session)@ == old(session)@
            &&& final(field).targets@ == old(field).targets@
            &&& final(field).last_spawn_ns == old(field).last_spawn_ns
            &&& *final(rng) == *old(rng)
            &&& o == ClickFrame { expired: 0, spawned: false }
        },
        old(session)@.running ==> {
            let alive = alive_targets(old(field).targets@, check_ns, life_ms);
            &&& o.expired == expired_count(old(field).targets@, check_ns, life_ms)
            &&& final(session)@ == old(session)@.after_expired(o.expired)
            &&& o.spawned == spec_spawn_due(
                old(field).last_spawn_ns,
                check_ns,
                spawn_ms,
                alive.len(),
                max_targets as nat,
            )
            &&& !o.spawned ==> {
                &&& final(field).targets@ == alive
                &&& final(field).last_spawn_ns == old(field).last_spawn_ns
                &&& *final(rng) == *old(rng)
            }
            &&& o.spawned ==> {
                &&& final(field).targets@.len() == alive.len() + 1
                &&& final(field).targets@.drop_last() == alive
                &&& final(field).targets@.last().born_ns == now_ns
                &&& final(field).last_spawn_ns == Some(now_ns)
                &&& *final(rng) == xorshift(xorshift(*old(rng)))
                &&& call_ensures(
                    place,
                    (xorshift(*old(rng)) >> 11u64, xorshift(xorshift(*old(rng))) >> 11u64),
                    final(field).targets@.last().item,
                )
            }
        },
        old(field).targets@.len() <= max_targets ==> final(field).targets@.len() <= max_targets,
{
    if !session.is_running() {
        return ClickFrame { expired: 0, spawned: false };
    }
    let ghost old_targets = field.targets@;
    let expired = field.expire(check_ns, life_ms);
    proof {
        old_targets.lemma_filter_len(
            |t: Spawned<T>| crate::field::is_alive(t.born_ns, check_ns, life_ms),
        );
    }
    session.record_expired(expired);
    let ghost alive = field.targets@;
    let due = field.spawn_due(check_ns, spawn_ms, max_targets);
    if due {
        let ghost r0 = *rng;
        let bx = rng_bits53(rng);
        let by = rng_bits53(rng);
        let item = place(bx, by);
        field.spawn(item, now_ns);
        proof {
            assert(field.targets@.drop_last() =~= alive);
            assert(bx == xorshift(r0) >> 11u64);
        }
    }
    ClickFrame { expired, spawned: due }
}

/// One frame of a tracking round: while a round runs and the field is empty,
/// `item` appears, born at `now_ns`, so a tracking round always holds its
/// target. Returns whether it was placed.
pub fn track_frame<T>(session: &Session, field: &mut TargetField<T>, now_ns: u64, item: T) -> (added:
    bool)
    ensures
        added == (session@.running && old(field).targets@.len() == 0),
        added ==> final(field).targets@ == seq![Spawned { item, born_ns: now_ns }],
        !added ==> final(field).targets@ == old(field).targets@,
        final(field).last_spawn_ns == old(field).last_spawn_ns,
        session@.running ==> final(field).targets@.len() >= 1,
        session@.running && old(field).targets@.len() <= 1 ==> final(field).targets@.len() == 1,
{
    if session.is_running() && field.is_empty() {
        field.add(item, now_ns);
        proof {
            assert(field.targets@ =~= seq![Spawned { item, born_ns: now_ns }]);
        }
        true
    } else {
        false
    }
}

/// Left button pressed. Outside a round nothing happens and `None` is
/// returned. During a round the session fires; in a click round the press at
/// (`x`, `y`) is also judged: `hit` is the index of the target under the
/// cursor, which is taken off the field, and the click is counted and logged
/// as a hit or a miss.
pub fn fire<T>(session: &mut Session, field: &mut TargetField<T>, hit: Option<usize>, x: i32, y: i32) -> (r:
    Option<Fired<T>>)
    requires
        old(session).wf(),
        hit matches Some(i) ==> i < old(field).targets@.len(),
        old(session)@.running && scenario_mode(old(session)@.scenario as int) == Mode::Click
            ==> old(session)@.hits + old(session)@.misclicks < u32::MAX,
    ensures
        final(session).wf(),
        final(field).last_spawn_ns == old(field).last_spawn_ns,
        !old(session)@.running ==> {
            &&& r is None
            &&& final(session)@ == old(session)@
            &&& final(field).targets@ == old(field).targets@
        },
        old(session)@.running ==> {
            let m = scenario_mode(old(session)@.scenario as int);
            let pressed = old(session)@.after_mouse_down();
            &&& r is Some
            &&& r->0.mode == m
            &&& m == Mode::Track ==> {
                &&& final(session)@ == pressed
                &&& final(field).targets@ == old(field).targets@
                &&& r->0.taken is None
            }
            &&& m == Mode::Click ==> {
                &&& final(session)@ == pressed.after_click(hit is Some, x, y)
                &&& (hit matches Some(i) ==> {
                    &&& r->0.taken == Some(old(field).targets@[i as int])
                    &&& final(field).targets@ == old(field).targets@.remove(i as int)
                })
                &&& (hit is None ==> {
                    &&& r->0.taken is None
                    &&& final(field).targets@ == old(field).targets@
                })
                &&& final(session)@.hits + final(session)@.misclicks == old(session)@.hits
                    + old(session)@.misclicks + 1
                &&& final(session)@.clicks.len() <= MAX_CLICK_MARKS
                &&& final(field).targets@.len() == old(field).targets@.len() - (if hit is Some {
                    1int
                } else {
                    0int
                })
            }
        },
{
    let mode = match session.mouse_down() {
        Some(m) => m,
        None => return None,
    };
    match mode {
        Mode::Track => Some(Fired { mode, taken: None }),
        Mode::Click => {
            let taken = match hit {
                Some(i) => Some(field.take(i)),
                None => None,
            };
            session.record_click(hit.is_some(), x, y);
            Some(Fired { mode, taken })
        },
    }
}

} // verus!
