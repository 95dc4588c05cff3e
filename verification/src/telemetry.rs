//! Diagnostic gating: a runtime-switchable active category, one rate
//! limiter per emission site, and the diagnostic records a cycle lets
//! through.

use vstd::prelude::*;

verus! {

/// The diagnostic categories a run can single out. `Silent` disables all
/// diagnostic output; unrecognized selector bytes fall back to it.
#[derive(Clone, Copy, Debug, PartialEq, Eq, Structural)]
pub enum Category {
    Silent,
    Imu,
    Attitude,
    Pid,
    Mix,
    Dshot,
}

/// The category a selector byte picks: the numeric identifiers in order,
/// anything else disabling output.
pub open spec fn category_of_byte(b: u8) -> Category {
    if b == 1 {
        Category::Imu
    } else if b == 2 {
        Category::Attitude
    } else if b == 3 {
        Category::Pid
    } else if b == 4 {
        Category::Mix
    } else if b == 5 {
        Category::Dshot
    } else {
        Category::Silent
    }
}

/// Turns one selector byte from the control interface into the category
/// it picks.
pub fn select_category(b: u8) -> (r: Category)
    ensures
        r == category_of_byte(b),
{
    if b == 1 {
        Category::Imu
    } else if b == 2 {
        Category::Attitude
    } else if b == 3 {
        Category::Pid
    } else if b == 4 {
        Category::Mix
    } else if b == 5 {
        Category::Dshot
    } else {
        Category::Silent
    }
}

/// The category a single-token command picks: one of the category names
/// as ASCII bytes, or a one-byte numeric identifier; anything else
/// disables output.
pub open spec fn category_of_token(t: Seq<u8>) -> Category {
    if t =~= seq![73u8, 109u8, 117u8] {  // "Imu"
        Category::Imu
    } else if t =~= seq![65u8, 116u8, 116u8, 105u8, 116u8, 117u8, 100u8, 101u8] {  // "Attitude"
        Category::Attitude
    } else if t =~= seq![80u8, 105u8, 100u8] {  // "Pid"
        Category::Pid
    } else if t =~= seq![77u8, 105u8, 120u8] {  // "Mix"
        Category::Mix
    } else if t =~= seq![68u8, 115u8, 104u8, 111u8, 116u8] {  // "Dshot"
        Category::Dshot
    } else if t.len() == 1 {
        category_of_byte(t[0])
    } else {
        Category::Silent
    }
}

/// Turns one token from the control interface — a category name or a
/// one-byte numeric identifier — into the category it picks.
pub fn select_category_token(token: &[u8]) -> (r: Category)
    ensures
        r == category_of_token(token@),
{
    if token.len() == 3 && token[0] == 73 && token[1] == 109 && token[2] == 117 {
        proof {
            assert(token@ =~= seq![73u8, 109u8, 117u8]);
        }
        Category::Imu
    } else if token.len() == 8 && token[0] == 65 && token[1] == 116 && token[2] == 116
        && token[3] == 105 && token[4] == 116 && token[5] == 117 && token[6] == 100
        && token[7] == 101 {
        proof {
            assert(token@ =~= seq![65u8, 116u8, 116u8, 105u8, 116u8, 117u8, 100u8, 101u8]);
        }
        Category::Attitude
    } else if token.len() == 3 && token[0] == 80 && token[1] == 105 && token[2] == 100 {
        proof {
            assert(token@ =~= seq![80u8, 105u8, 100u8]);
        }
        Category::Pid
    } else if token.len() == 3 && token[0] == 77 && token[1] == 105 && token[2] == 120 {
        proof {
            assert(token@ =~= seq![77u8, 105u8, 120u8]);
        }
        Category::Mix
    } else if token.len() == 5 && token[0] == 68 && token[1] == 115 && token[2] == 104
        && token[3] == 111 && token[4] == 116 {
        proof {
            assert(token@ =~= seq![68u8, 115u8, 104u8, 111u8, 116u8]);
        }
        Category::Dshot
    } else if token.len() == 1 {
        select_category(token[0])
    } else {
        Category::Silent
    }
}

/// A per-call-site counter that passes every `limit`-th call.
#[derive(Clone, Copy, Debug, PartialEq, Eq, Structural)]
pub struct RateLimiter {
    pub limit: u64,
    pub count: u64,
}

/// The counter value after one more call.
pub open spec fn rl_next_count(rl: RateLimiter) -> int {
    (rl.count + 1) % (rl.limit as int)
}

impl RateLimiter {
    /// A limiter is consistent when its counter has not yet reached its
    /// (positive) period.
    pub open spec fn wf(self) -> bool {
        1 <= self.limit && self.count < self.limit
    }

    /// A fresh limiter that will first pass on its `limit`-th call.
    pub fn new(limit: u64) -> (r: RateLimiter)
        requires
            limit >= 1,
        ensures
            r.wf(),
            r.limit == limit,
            r.count == 0,
    {
        RateLimiter { limit, count: 0 }
    }

    /// Counts one call; passes exactly on every `limit`-th call.
    pub fn tick(&mut self) -> (r: bool)
        requires
            old(self).wf(),
        ensures
            final(self).wf(),
            final(self).limit == old(self).limit,
            final(self).count == rl_next_count(*old(self)),
            r == (final(self).count == 0),
    {
        self.count = self.count + 1;
        if self.count == self.limit {
            self.count = 0;
        }
        proof {
            if old(self).count + 1 == old(self).limit {
                assert((old(self).count + 1) % (old(self).limit as int) == 0) by {
                    vstd::arithmetic::div_mod::lemma_mod_self_0(old(self).limit as int);
                }
            } else {
                vstd::arithmetic::div_mod::lemma_small_mod(
                    (old(self).count + 1) as nat,
                    old(self).limit as nat,
                );
            }
        }
        self.count == 0
    }
}

/// One diagnostic record a cycle decided to emit: its category and the
/// fixed-point values of the line.
#[derive(Debug)]
pub struct TeleEvent {
    pub cat: Category,
    pub vals: Vec<i64>,
}

/// The diagnostic gate: the active category, one rate limiter per
/// emission site, and the records gated through so far, oldest first.
#[derive(Debug)]
pub struct Telemetry {
    pub active: Category,
    pub rl_imu: RateLimiter,
    pub rl_attitude: RateLimiter,
    pub rl_pid: RateLimiter,
    pub rl_mix: RateLimiter,
    pub rl_dshot: RateLimiter,
    pub out: Vec<TeleEvent>,
}

/// The limiter that guards the emission site of `cat`.
pub open spec fn rl_of(t: Telemetry, cat: Category) -> RateLimiter
    recommends
        !(cat is Silent),
{
    match cat {
        Category::Silent => t.rl_imu,
        Category::Imu => t.rl_imu,
        Category::Attitude => t.rl_attitude,
        Category::Pid => t.rl_pid,
        Category::Mix => t.rl_mix,
        Category::Dshot => t.rl_dshot,
    }
}

/// All limiters of `b` equal those of `a`, except possibly the one that
/// guards `cat`.
pub open spec fn rls_unchanged_except(a: Telemetry, b: Telemetry, cat: Category) -> bool {
    &&& !(cat is Imu) ==> b.rl_imu == a.rl_imu
    &&& !(cat is Attitude) ==> b.rl_attitude == a.rl_attitude
    &&& !(cat is Pid) ==> b.rl_pid == a.rl_pid
    &&& !(cat is Mix) ==> b.rl_mix == a.rl_mix
    &&& !(cat is Dshot) ==> b.rl_dshot == a.rl_dshot
}

/// Nothing was counted and nothing went out.
pub open spec fn tele_unchanged(a: Telemetry, b: Telemetry) -> bool {
    &&& b.active == a.active
    &&& rls_unchanged_except(a, b, Category::Silent)
    &&& b.out@ == a.out@
}

/// One emission site fired: its limiter advanced once and the record was
/// appended exactly when the limiter passed; everything else is unmoved.
pub open spec fn tele_one_emit(a: Telemetry, b: Telemetry, cat: Category, vals: Seq<i64>) -> bool {
    &&& b.active == a.active
    &&& rls_unchanged_except(a, b, cat)
    &&& rl_of(b, cat).limit == rl_of(a, cat).limit
    &&& rl_of(b, cat).count == rl_next_count(rl_of(a, cat))
    &&& rl_next_count(rl_of(a, cat)) == 0 ==> b.out@.len() == a.out@.len() + 1
        && b.out@.subrange(0, a.out@.len() as int) == a.out@ && b.out@.last().cat == cat
        && b.out@.last().vals@ == vals
    &&& rl_next_count(rl_of(a, cat)) != 0 ==> b.out@ == a.out@
}

impl Telemetry {
    /// All limiters consistent.
    pub open spec fn wf(self) -> bool {
        &&& self.rl_imu.wf()
        &&& self.rl_attitude.wf()
        &&& self.rl_pid.wf()
        &&& self.rl_mix.wf()
        &&& self.rl_dshot.wf()
    }

    /// A silent gate whose five site limiters all share one period.
    pub fn new(limit: u64) -> (r: Telemetry)
        requires
            limit >= 1,
        ensures
            r.wf(),
            r.active is Silent,
            r.out@.len() == 0,
            rl_of(r, Category::Imu) == (RateLimiter { limit, count: 0 }),
            rl_of(r, Category::Attitude) == (RateLimiter { limit, count: 0 }),
            rl_of(r, Category::Pid) == (RateLimiter { limit, count: 0 }),
            rl_of(r, Category::Mix) == (RateLimiter { limit, count: 0 }),
            rl_of(r, Category::Dshot) == (RateLimiter { limit, count: 0 }),
    {
        Telemetry {
            active: Category::Silent,
            rl_imu: RateLimiter::new(limit),
            rl_attitude: RateLimiter::new(limit),
            rl_pid: RateLimiter::new(limit),
            rl_mix: RateLimiter::new(limit),
            rl_dshot: RateLimiter::new(limit),
            out: Vec::new(),
        }
    }

    /// Replaces the active category; the limiters and the emitted records
    /// stay as they are.
    pub fn set_active(&mut self, cat: Category)
        requires
            old(self).wf(),
        ensures
            final(self).wf(),
            final(self).active == cat,
            rls_unchanged_except(*old(self), *final(self), Category::Silent),
            final(self).out@ == old(self).out@,
    {
        self.active = cat;
    }

    /// One emission site reporting `vals` under `cat`: the record goes out
    /// only when `cat` is the active category and the site's rate limiter
    /// passes. A site whose category is not active does not even count the
    /// call, so switching categories restarts its cadence where it left
    /// off.
    pub fn emit(&mut self, cat: Category, vals: Vec<i64>)
        requires
            old(self).wf(),
        ensures
            final(self).wf(),
            cat == old(self).active && !(cat is Silent) ==> tele_one_emit(
                *old(self),
                *final(self),
                cat,
                vals@,
            ),
            !(cat == old(self).active && !(cat is Silent)) ==> tele_unchanged(
                *old(self),
                *final(self),
            ),
    {
        let gated: bool = match (cat, self.active) {
            (Category::Imu, Category::Imu) => true,
            (Category::Attitude, Category::Attitude) => true,
            (Category::Pid, Category::Pid) => true,
            (Category::Mix, Category::Mix) => true,
            (Category::Dshot, Category::Dshot) => true,
            _ => false,
        };
        if gated {
            let pass: bool = match cat {
                Category::Imu => self.rl_imu.tick(),
                Category::Attitude => self.rl_attitude.tick(),
                Category::Pid => self.rl_pid.tick(),
                Category::Mix => self.rl_mix.tick(),
                Category::Dshot => self.rl_dshot.tick(),
                Category::Silent => false,
            };
            if pass {
                let ghost n = self.out@.len();
                self.out.push(TeleEvent { cat, vals });
                proof {
                    assert(self.out@.subrange(0, n as int) =~= old(self).out@);
                }
            }
        }
    }
}

} // verus!
