use vstd::prelude::*;

use chrono::Local;
use tsuki_scheduler::schedule::Cron;
use tsuki_scheduler::schedule::Schedule;

verus! {

/// One parsed cron expression: tsuki_scheduler's `Cron`, in the machine's time
/// zone. Its declaration with the `TimeZone` bound is refused, so it is held here.
#[verifier::external_body]
pub struct ParsedCron {
    inner: Cron<Local>,
}

/// Whether the cron crate accepts an expression. It depends on the text alone.
pub uninterp spec fn cron_expr_valid(expr: Seq<char>) -> bool;

/// Relies on tsuki_scheduler's `Cron::local_from_cron_expr`, which parses the
/// expression with the cron crate and fails exactly when the text is rejected.
#[verifier::external_body]
fn parse_cron(expr: &String) -> (r: Option<ParsedCron>)
    ensures
        r.is_some() == cron_expr_valid(expr@),
{
    Cron::local_from_cron_expr(expr.as_str()).ok().map(|inner| ParsedCron { inner })
}

/// Relies on `Schedule::forward_to` and `Schedule::peek_next` of tsuki_scheduler's
/// `Cron`: the first occurrence after second `t`, in the machine's time zone.
/// Nothing is promised of the value.
#[verifier::external_body]
fn occurrence_after(c: &mut ParsedCron, t: i64) -> (r: Option<i64>) {
    let start = chrono::DateTime::from_timestamp(t, 0)?;
    c.inner.forward_to(start);
    c.inner.peek_next().map(|d| d.timestamp())
}

/// The expressions of `exprs` that parse, in their order.
pub open spec fn valid_exprs(exprs: Seq<String>) -> Seq<Seq<char>>
    decreases exprs.len(),
{
    if exprs.len() == 0 {
        Seq::empty()
    } else {
        let rest = valid_exprs(exprs.drop_last());
        if cron_expr_valid(exprs.last()@) {
            rest.push(exprs.last()@)
        } else {
            rest
        }
    }
}

/// The earlier of two optional instants; an absent one never wins.
pub open spec fn earlier(a: Option<i64>, b: Option<i64>) -> Option<i64> {
    match (a, b) {
        (Some(x), Some(y)) => Some(if y < x { y } else { x }),
        (Some(x), None) => Some(x),
        (None, _) => b,
    }
}

/// The earliest instant among the present ones: the merge of several
/// occurrence sequences takes its next element here.
pub open spec fn seq_earliest(cands: Seq<Option<i64>>) -> Option<i64>
    decreases cands.len(),
{
    if cands.len() == 0 {
        None
    } else {
        earlier(seq_earliest(cands.drop_last()), cands.last())
    }
}

/// The instant that a candidate fire time settles to: moved up to `last + throttle`
/// when it would come sooner after the previous fire, and dropped when it is not
/// before the end of the window (or when `last + throttle` leaves the range of `i64`).
pub open spec fn settled_fire(
    cand: Option<i64>,
    last: Option<i64>,
    throttle: i64,
    not_after: Option<i64>,
) -> Option<i64> {
    match cand {
        None => None,
        Some(t) => {
            let floor: Option<int> = match last {
                Some(l) => Some(l + throttle),
                None => None,
            };
            if floor.is_some() && floor.unwrap() > i64::MAX {
                None
            } else {
                let f: int = if floor.is_some() && t < floor.unwrap() { floor.unwrap() } else { t as int };
                if not_after.is_some() && f >= not_after.unwrap() {
                    None
                } else {
                    Some(f as i64)
                }
            }
        },
    }
}

/// A fire time respects the throttle after `last` and the end of the window.
pub open spec fn fire_allowed(t: i64, last: Option<i64>, throttle: i64, not_after: Option<i64>) -> bool {
    &&& last.is_some() ==> t >= last.unwrap() + throttle
    &&& not_after.is_some() ==> t < not_after.unwrap()
}

/// The earliest of the present candidates.
pub fn earliest(cands: &Vec<Option<i64>>) -> (r: Option<i64>)
    ensures
        r == seq_earliest(cands@),
{
    let mut acc: Option<i64> = None;
    let mut i: usize = 0;
    while i < cands.len()
        invariant
            i <= cands@.len(),
            acc == seq_earliest(cands@.take(i as int)),
        decreases cands@.len() - i,
    {
        assert(cands@.take(i as int + 1).drop_last() =~= cands@.take(i as int));
        let c = cands[i];
        acc = match (acc, c) {
            (Some(x), Some(y)) => Some(if y < x { y } else { x }),
            (Some(x), None) => Some(x),
            (None, _) => c,
        };
        i = i + 1;
    }
    assert(cands@.take(cands@.len() as int) =~= cands@);
    acc
}

/// Applies the throttle and the end of the window to a candidate fire time.
pub fn settle_fire(cand: Option<i64>, last: Option<i64>, throttle: i64, not_after: Option<i64>) -> (r: Option<i64>)
    requires
        throttle > 0,
    ensures
        r == settled_fire(cand, last, throttle, not_after),
        r.is_some() ==> fire_allowed(r.unwrap(), last, throttle, not_after),
{
    let t = match cand {
        None => return None,
        Some(t) => t,
    };
    let f = match last {
        Some(l) => match l.checked_add(throttle) {
            None => return None,
            Some(floor) => if t < floor { floor } else { t },
        },
        None => t,
    };
    match not_after {
        Some(d) => if f >= d { return None; },
        None => {},
    }
    Some(f)
}

/// The second after which the next occurrences are sought: the latest of `now`,
/// the start of the window and the end of the throttle after the previous fire;
/// `None` when that end leaves the range of `i64`.
pub open spec fn spec_search_start(now: i64, not_before: Option<i64>, last: Option<i64>, throttle: i64) -> Option<i64> {
    let a: int = if not_before.is_some() && not_before.unwrap() > now { not_before.unwrap() as int } else { now as int };
    if last.is_some() && last.unwrap() + throttle > i64::MAX {
        None
    } else if last.is_some() && last.unwrap() + throttle > a {
        Some((last.unwrap() + throttle) as i64)
    } else {
        Some(a as i64)
    }
}

/// The second after which the next occurrences are sought.
pub fn search_start(now: i64, not_before: Option<i64>, last: Option<i64>, throttle: i64) -> (r: Option<i64>)
    requires
        throttle > 0,
    ensures
        r == spec_search_start(now, not_before, last, throttle),
{
    let mut start: i64 = now;
    if let Some(b) = not_before {
        if b > start {
            start = b;
        }
    }
    if let Some(l) = last {
        match l.checked_add(throttle) {
            Some(f) => if f > start { start = f; },
            None => return None,
        }
    }
    Some(start)
}

/// The fire sequence of one job: the union of the occurrences of its valid cron
/// expressions, inside its activation window, with at least `throttle` seconds
/// between two fires.
pub struct FireSchedule {
    crons: Vec<ParsedCron>,
    exprs: Ghost<Seq<Seq<char>>>,
    not_before: Option<i64>,
    not_after: Option<i64>,
    throttle: i64,
    last_fire: Option<i64>,
}

impl FireSchedule {
    pub closed spec fn wf(&self) -> bool {
        &&& self.throttle > 0
        &&& self.crons@.len() == self.exprs@.len()
    }

    pub proof fn lemma_throttle_positive(&self)
        requires
            self.wf(),
        ensures
            self.spec_throttle() > 0,
    {
    }

    /// The valid expressions whose occurrences are merged.
    pub closed spec fn expressions(&self) -> Seq<Seq<char>> {
        self.exprs@
    }

    pub closed spec fn spec_not_before(&self) -> Option<i64> {
        self.not_before
    }

    pub closed spec fn spec_not_after(&self) -> Option<i64> {
        self.not_after
    }

    pub closed spec fn spec_throttle(&self) -> i64 {
        self.throttle
    }

    /// The previous fire handed out, if any.
    pub closed spec fn spec_last_fire(&self) -> Option<i64> {
        self.last_fire
    }

    /// Builds the fire sequence, or `None` when the window has already closed at
    /// `now`: such a job must not get a timer at all. Expressions that do not parse
    /// are left out; the others are kept.
    pub fn new(
        exprs: &Vec<String>,
        not_before: Option<i64>,
        not_after: Option<i64>,
        throttle: i64,
        now: i64,
    ) -> (r: Option<FireSchedule>)
        requires
            throttle > 0,
        ensures
            r.is_none() == window_closed(not_after, now),
            r.is_some() ==> {
                let s = r.unwrap();
                &&& s.wf()
                &&& s.expressions() == valid_exprs(exprs@)
                &&& s.spec_not_before() == not_before
                &&& s.spec_not_after() == not_after
                &&& s.spec_throttle() == throttle
                &&& s.spec_last_fire().is_none()
            },
    {
        if let Some(d) = not_after {
            if d < now {
                return None;
            }
        }
        let mut crons: Vec<ParsedCron> = Vec::new();
        let ghost mut kept: Seq<Seq<char>> = Seq::empty();
        let mut i: usize = 0;
        while i < exprs.len()
            invariant
                i <= exprs@.len(),
                kept == valid_exprs(exprs@.take(i as int)),
                crons@.len() == kept.len(),
            decreases exprs@.len() - i,
        {
            assert(exprs@.take(i as int + 1).drop_last() =~= exprs@.take(i as int));
            match parse_cron(&exprs[i]) {
                Some(c) => {
                    crons.push(c);
                    proof {
                        kept = kept.push(exprs@[i as int]@);
                    }
                },
                None => {},
            }
            i = i + 1;
        }
        assert(exprs@.take(exprs@.len() as int) =~= exprs@);
        Some(FireSchedule { crons, exprs: Ghost(kept), not_before, not_after, throttle, last_fire: None })
    }

    /// Number of valid expressions whose occurrences are merged.
    pub fn expression_count(&self) -> (r: usize)
        requires
            self.wf(),
        ensures
            r == self.expressions().len(),
    {
        self.crons.len()
    }

    /// The previous fire handed out, if any.
    pub fn last_fire(&self) -> (r: Option<i64>)
        ensures
            r == self.spec_last_fire(),
    {
        self.last_fire
    }

    /// Hands out the next fire instant at or after `now`, or `None` when the sequence
    /// has ended. Whatever the occurrences are, the instant keeps the throttle after
    /// the previous one and stays before the end of the window; it becomes the
    /// previous fire of the next call.
    pub fn next_fire(&mut self, now: i64) -> (r: Option<i64>)
        requires
            old(self).wf(),
        ensures
            final(self).wf(),
            final(self).expressions() == old(self).expressions(),
            final(self).spec_not_before() == old(self).spec_not_before(),
            final(self).spec_not_after() == old(self).spec_not_after(),
            final(self).spec_throttle() == old(self).spec_throttle(),
            next_fire_step(*old(self), *final(self), r),
            old(self).expressions().len() == 0 ==> r.is_none(),
    {
        let start = match search_start(now, self.not_before, self.last_fire, self.throttle) {
            Some(t) => t,
            None => return None,
        };
        let mut cands: Vec<Option<i64>> = Vec::new();
        let mut i: usize = 0;
        let ghost n = self.crons@.len();
        while i < self.crons.len()
            invariant
                self.crons@.len() == n,
                i <= n,
                cands@.len() == i,
                self.throttle == old(self).throttle,
                self.exprs == old(self).exprs,
                self.not_before == old(self).not_before,
                self.not_after == old(self).not_after,
                self.last_fire == old(self).last_fire,
            decreases n - i,
        {
            let c = occurrence_after(&mut self.crons[i], start);
            cands.push(c);
            i = i + 1;
        }
        let first = earliest(&cands);
        proof {
            if n == 0 {
                assert(cands@ =~= Seq::<Option<i64>>::empty());
            }
        }
        let r = settle_fire(first, self.last_fire, self.throttle, self.not_after);
        if r.is_some() {
            self.last_fire = r;
        }
        r
    }
}

/// The window of a job has closed at `now`.
pub open spec fn window_closed(not_after: Option<i64>, now: i64) -> bool {
    not_after.is_some() && not_after.unwrap() < now
}

/// One call of `next_fire` took `before` to `after` and returned `r`: a returned
/// instant keeps the throttle and the window and becomes the previous fire; when
/// nothing is returned the previous fire stays.
pub open spec fn next_fire_step(before: FireSchedule, after: FireSchedule, r: Option<i64>) -> bool {
    &&& r.is_some() ==> fire_allowed(
        r.unwrap(),
        before.spec_last_fire(),
        before.spec_throttle(),
        before.spec_not_after(),
    )
    &&& after.spec_last_fire() == (if r.is_some() { r } else { before.spec_last_fire() })
}

} // verus!
