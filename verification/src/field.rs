use vstd::prelude::*;

verus! {

/// Nanoseconds in a millisecond.
pub const NANOS_PER_MILLI: u64 = 1_000_000;

/// A target on the field together with the moment it appeared (nanoseconds on
/// the game clock).
pub struct Spawned<T> {
    pub item: T,
    pub born_ns: u64,
}

/// Whole milliseconds from `from_ns` to `to_ns`, zero when `to_ns` is earlier.
pub open spec fn elapsed_ms(from_ns: u64, to_ns: u64) -> int {
    if to_ns >= from_ns {
        (to_ns - from_ns) / (NANOS_PER_MILLI as int)
    } else {
        0
    }
}

/// Whether a target born at `born_ns` is still alive at `now_ns` for a
/// lifetime of `life_ms` milliseconds.
pub open spec fn is_alive(born_ns: u64, now_ns: u64, life_ms: u64) -> bool {
    elapsed_ms(born_ns, now_ns) < life_ms
}

/// The targets of `s` that are alive at `now_ns`, in order.
pub open spec fn alive_targets<T>(s: Seq<Spawned<T>>, now_ns: u64, life_ms: u64) -> Seq<
    Spawned<T>,
> {
    s.filter(|t: Spawned<T>| is_alive(t.born_ns, now_ns, life_ms))
}

/// Whether a new target is due: none was spawned yet, or the last one appeared
/// at least `spawn_ms` milliseconds ago; and the field is below `max_targets`.
pub open spec fn spec_spawn_due(
    last_spawn_ns: Option<u64>,
    now_ns: u64,
    spawn_ms: u64,
    live: nat,
    max_targets: nat,
) -> bool {
    let need = match last_spawn_ns {
        Some(ls) => elapsed_ms(ls, now_ns) >= spawn_ms,
        None => true,
    };
    need && live < max_targets
}

/// Whole milliseconds from `from_ns` to `to_ns`, saturating at zero.
pub fn millis_between(from_ns: u64, to_ns: u64) -> (ms: u64)
    ensures
        ms == elapsed_ms(from_ns, to_ns),
{
    if to_ns >= from_ns {
        (to_ns - from_ns) / NANOS_PER_MILLI
    } else {
        0
    }
}

/// The live targets of a round and the moment the last one was spawned.
pub struct TargetField<T> {
    pub targets: Vec<Spawned<T>>,
    pub last_spawn_ns: Option<u64>,
}

impl<T> TargetField<T> {
    /// An empty field with no spawn yet.
    pub fn new() -> (f: Self)
        ensures
            f.targets@.len() == 0,
            f.last_spawn_ns.is_none(),
    {
        TargetField { targets: Vec::new(), last_spawn_ns: None }
    }

    /// Removes every target and forgets the last spawn time (a new round).
    pub fn reset(&mut self)
        ensures
            final(self).targets@.len() == 0,
            final(self).last_spawn_ns.is_none(),
    {
        self.targets.clear();
        self.last_spawn_ns = None;
    }

    /// Removes every target, keeping the last spawn time.
    pub fn clear_targets(&mut self)
        ensures
            final(self).targets@.len() == 0,
            final(self).last_spawn_ns == old(self).last_spawn_ns,
    {
        self.targets.clear();
    }

    /// Number of targets on the field.
    pub fn len(&self) -> (n: usize)
        ensures
            n == self.targets@.len(),
    {
        self.targets.len()
    }

    /// Whether the field holds no target.
    pub fn is_empty(&self) -> (b: bool)
        ensures
            b == (self.targets@.len() == 0),
    {
        self.targets.len() == 0
    }

    /// Drops the targets whose lifetime of `life_ms` has run out at `now_ns`,
    /// keeping the others in order, and returns how many were dropped.
    pub fn expire(&mut self, now_ns: u64, life_ms: u64) -> (expired: usize)
        ensures
            final(self).targets@ == alive_targets(old(self).targets@, now_ns, life_ms),
            final(self).last_spawn_ns == old(self).last_spawn_ns,
            expired == old(self).targets@.len() - final(self).targets@.len(),
    {
        let ghost orig = self.targets@;
        let ghost pred = |t: Spawned<T>| is_alive(t.born_ns, now_ns, life_ms);
        let mut rest: Vec<Spawned<T>> = Vec::new();
        std::mem::swap(&mut rest, &mut self.targets);
        let before = rest.len();
        let mut i: usize = 0;
        while i < before
            invariant
                before == orig.len(),
                pred == (|t: Spawned<T>| is_alive(t.born_ns, now_ns, life_ms)),
                i <= before,
                rest@ == orig.subrange(i as int, orig.len() as int),
                self.targets@ == orig.subrange(0, i as int).filter(pred),
                self.last_spawn_ns == old(self).last_spawn_ns,
            decreases before - i,
        {
            let t = rest.remove(0);
            proof {
                assert(orig.subrange(0, i + 1) =~= orig.subrange(0, i as int).push(t));
                orig.subrange(0, i as int).lemma_filter_push(t, pred);
            }
            let age = millis_between(t.born_ns, now_ns);
            if age < life_ms {
                self.targets.push(t);
            }
            i = i + 1;
        }
        proof {
            assert(orig.subrange(0, before as int) =~= orig);
            orig.lemma_filter_len(pred);
        }
        before - self.targets.len()
    }

    /// Whether a new target should appear now (see `spec_spawn_due`).
    pub fn spawn_due(&self, now_ns: u64, spawn_ms: u64, max_targets: usize) -> (due: bool)
        ensures
            due == spec_spawn_due(
                self.last_spawn_ns,
                now_ns,
                spawn_ms,
                self.targets@.len(),
                max_targets as nat,
            ),
    {
        let need = match self.last_spawn_ns {
            Some(ls) => millis_between(ls, now_ns) >= spawn_ms,
            None => true,
        };
        need && self.targets.len() < max_targets
    }

    /// Places a new target born at `now_ns` and records the spawn time.
    pub fn spawn(&mut self, item: T, now_ns: u64)
        requires
            old(self).targets@.len() < usize::MAX,
        ensures
            final(self).targets@ == old(self).targets@.push(Spawned { item, born_ns: now_ns }),
            final(self).last_spawn_ns == Some(now_ns),
    {
        self.targets.push(Spawned { item, born_ns: now_ns });
        self.last_spawn_ns = Some(now_ns);
    }

    /// Places a target born at `now_ns` without counting it as a timed spawn.
    pub fn add(&mut self, item: T, now_ns: u64)
        requires
            old(self).targets@.len() < usize::MAX,
        ensures
            final(self).targets@ == old(self).targets@.push(Spawned { item, born_ns: now_ns }),
            final(self).last_spawn_ns == old(self).last_spawn_ns,
    {
        self.targets.push(Spawned { item, born_ns: now_ns });
    }

    /// Takes the target at index `i` off the field (it was hit).
    pub fn take(&mut self, i: usize) -> (t: Spawned<T>)
        requires
            i < old(self).targets@.len(),
        ensures
            t == old(self).targets@[i as int],
            final(self).targets@ == old(self).targets@.remove(i as int),
            final(self).last_spawn_ns == old(self).last_spawn_ns,
    {
        self.targets.remove(i)
    }
}

/// Law: expiring again at the same moment removes nothing more.
pub proof fn lemma_expire_idempotent<T>(s: Seq<Spawned<T>>, now_ns: u64, life_ms: u64)
    ensures
        alive_targets(alive_targets(s, now_ns, life_ms), now_ns, life_ms) == alive_targets(
            s,
            now_ns,
            life_ms,
        ),
{
    let pred = |t: Spawned<T>| is_alive(t.born_ns, now_ns, life_ms);
    let a = s.filter(pred);
    broadcast use vstd::seq_lib::group_filter_ensures;

    lemma_filter_all_true(a, pred);
}

/// A filter that every element passes leaves the sequence unchanged.
proof fn lemma_filter_all_true<A>(s: Seq<A>, pred: spec_fn(A) -> bool)
    requires
        forall|i: int| 0 <= i < s.len() ==> pred(#[trigger] s[i]),
    ensures
        s.filter(pred) == s,
    decreases s.len(),
{
    reveal(Seq::filter);
    if s.len() > 0 {
        lemma_filter_all_true(s.drop_last(), pred);
        assert(s.drop_last().push(s.last()) =~= s);
    }
}

/// Law: every target that survives an expiry is alive, and every alive target
/// of the field survives it.
pub proof fn lemma_expire_keeps_exactly_alive<T>(s: Seq<Spawned<T>>, now_ns: u64, life_ms: u64)
    ensures
        forall|i: int|
            0 <= i < alive_targets(s, now_ns, life_ms).len() ==> is_alive(
                #[trigger] alive_targets(s, now_ns, life_ms)[i].born_ns,
                now_ns,
                life_ms,
            ),
        forall|i: int|
            0 <= i < s.len() && is_alive(#[trigger] s[i].born_ns, now_ns, life_ms)
                ==> alive_targets(s, now_ns, life_ms).contains(s[i]),
{
    broadcast use vstd::seq_lib::group_filter_ensures;

    let pred = |t: Spawned<T>| is_alive(t.born_ns, now_ns, life_ms);
    assert forall|i: int| 0 <= i < s.len() && is_alive(#[trigger] s[i].born_ns, now_ns, life_ms)
        implies alive_targets(s, now_ns, life_ms).contains(s[i]) by {
        assert(pred(s[i]));
    }
}

/// Law: taking back the target that was just placed restores the field's
/// targets and returns exactly that target.
pub proof fn lemma_take_undoes_add<T>(s: Seq<Spawned<T>>, item: T, now_ns: u64)
    ensures
        s.push(Spawned { item, born_ns: now_ns }).remove(s.len() as int) == s,
        s.push(Spawned { item, born_ns: now_ns })[s.len() as int] == (Spawned { item, born_ns: now_ns }),
{
    assert(s.push(Spawned { item, born_ns: now_ns }).remove(s.len() as int) =~= s);
}

/// Law: no target is due before the spawn interval has passed since the last
/// spawn, however few targets are live; once it has passed (or before any
/// spawn) a target is due exactly when the field is below its maximum.
pub proof fn lemma_spawn_interval(
    last_spawn_ns: Option<u64>,
    now_ns: u64,
    spawn_ms: u64,
    live: nat,
    max_targets: nat,
)
    ensures
        last_spawn_ns matches Some(ls) && now_ns >= ls && (now_ns - ls) < spawn_ms * 1_000_000
            ==> !spec_spawn_due(last_spawn_ns, now_ns, spawn_ms, live, max_targets),
        last_spawn_ns matches Some(ls) && now_ns < ls && spawn_ms > 0 ==> !spec_spawn_due(
            last_spawn_ns,
            now_ns,
            spawn_ms,
            live,
            max_targets,
        ),
        last_spawn_ns matches Some(ls) && now_ns >= ls && (now_ns - ls) >= spawn_ms * 1_000_000 ==> (
        spec_spawn_due(last_spawn_ns, now_ns, spawn_ms, live, max_targets) == (live < max_targets)),
        last_spawn_ns is None ==> (spec_spawn_due(last_spawn_ns, now_ns, spawn_ms, live, max_targets)
            == (live < max_targets)),
{
    if let Some(ls) = last_spawn_ns {
        if now_ns >= ls {
            let d: int = now_ns - ls;
            let s: int = spawn_ms as int;
            assert(d < s * 1_000_000 ==> d / 1_000_000 < s) by (nonlinear_arith)
                requires
                    d >= 0,
                    s >= 0,
            ;
            assert(d >= s * 1_000_000 ==> d / 1_000_000 >= s) by (nonlinear_arith)
                requires
                    d >= 0,
                    s >= 0,
            ;
        }
    }
}

/// Law: a target survives an expiry exactly when less than its lifetime (in
/// whole milliseconds) has passed since it appeared: targets born no later
/// than `now_ns - life_ms` milliseconds are gone, younger ones (and ones
/// stamped after `now_ns`, when `life_ms > 0`) stay.
pub proof fn lemma_lifetime(born_ns: u64, now_ns: u64, life_ms: u64)
    ensures
        now_ns >= born_ns && (now_ns - born_ns) >= life_ms * 1_000_000 ==> !is_alive(
            born_ns,
            now_ns,
            life_ms,
        ),
        now_ns >= born_ns && (now_ns - born_ns) < life_ms * 1_000_000 ==> is_alive(
            born_ns,
            now_ns,
            life_ms,
        ),
        now_ns < born_ns ==> (is_alive(born_ns, now_ns, life_ms) == (life_ms > 0)),
{
    if now_ns >= born_ns {
        let d: int = now_ns - born_ns;
        let l: int = life_ms as int;
        assert(d < l * 1_000_000 ==> d / 1_000_000 < l) by (nonlinear_arith)
            requires
                d >= 0,
                l >= 0,
        ;
        assert(d >= l * 1_000_000 ==> d / 1_000_000 >= l) by (nonlinear_arith)
            requires
                d >= 0,
                l >= 0,
        ;
    }
}

/// Law: expiry removes exactly the targets past their lifetime: it never
/// adds targets, every kept target is within its lifetime, and every target
/// within its lifetime is kept.
pub proof fn lemma_expire_partition<T>(s: Seq<Spawned<T>>, now_ns: u64, life_ms: u64)
    ensures
        alive_targets(s, now_ns, life_ms).len() <= s.len(),
        forall|i: int|
            0 <= i < alive_targets(s, now_ns, life_ms).len() ==> {
                let b = #[trigger] alive_targets(s, now_ns, life_ms)[i].born_ns;
                !(now_ns >= b && (now_ns - b) >= life_ms * 1_000_000)
            },
        forall|i: int|
            0 <= i < s.len() && now_ns >= #[trigger] s[i].born_ns && (now_ns - s[i].born_ns)
                < life_ms * 1_000_000 ==> alive_targets(s, now_ns, life_ms).contains(s[i]),
{
    broadcast use vstd::seq_lib::group_filter_ensures;

    let pred = |t: Spawned<T>| is_alive(t.born_ns, now_ns, life_ms);
    assert forall|i: int|
        0 <= i < alive_targets(s, now_ns, life_ms).len() implies {
            let b = #[trigger] alive_targets(s, now_ns, life_ms)[i].born_ns;
            !(now_ns >= b && (now_ns - b) >= life_ms * 1_000_000)
        } by {
        let b = alive_targets(s, now_ns, life_ms)[i].born_ns;
        assert(pred(alive_targets(s, now_ns, life_ms)[i]));
        lemma_lifetime(b, now_ns, life_ms);
    }
    assert forall|i: int|
        0 <= i < s.len() && now_ns >= #[trigger] s[i].born_ns && (now_ns - s[i].born_ns)
            < life_ms * 1_000_000 implies alive_targets(s, now_ns, life_ms).contains(s[i]) by {
        lemma_lifetime(s[i].born_ns, now_ns, life_ms);
        assert(pred(s[i]));
    }
}

/// Law: a full field never asks for another target.
pub proof fn lemma_full_field_spawns_nothing(
    last_spawn_ns: Option<u64>,
    now_ns: u64,
    spawn_ms: u64,
    live: nat,
    max_targets: nat,
)
    requires
        live >= max_targets,
    ensures
        !spec_spawn_due(last_spawn_ns, now_ns, spawn_ms, live, max_targets),
{
}

} // verus!
