//! Deadlines on a grid.
//!
//! Work that recurs is due at the start plus a whole number of intervals. A late
//! round catches up to the next point of the grid; its delay is not carried over.

use vstd::prelude::*;

verus! {

/// Milliseconds between two logic rounds.
pub const LOGIC_INTERVAL_MS: u64 = 50;

/// Milliseconds between two business rounds.
pub const BIZ_INTERVAL_MS: u64 = 1_000;

/// Milliseconds between two render rounds where no rate is set.
pub const RENDER_DEFAULT_INTERVAL_MS: u64 = 16;

/// Milliseconds between two samples of the cursor.
pub const CURSOR_INTERVAL_MS: u64 = 50;

/// Milliseconds between two samples of the windows.
pub const WINDOWS_INTERVAL_MS: u64 = 2_000;

/// Milliseconds between two samples of the system.
pub const SYSTEM_INTERVAL_MS: u64 = 10_000;

/// Milliseconds between two samples of the user's activity.
pub const ACTIVITY_INTERVAL_MS: u64 = 1_000;

/// `n`, held at the largest 64-bit number.
pub open spec fn capped(n: int) -> int {
    if n > u64::MAX {
        u64::MAX as int
    } else {
        n
    }
}

/// The first point after `now` of the grid through `next`; `next` itself where it is
/// not reached yet.
pub open spec fn caught_up(next: u64, now: u64, interval: u64) -> int {
    if now < next {
        next as int
    } else {
        capped(next + ((now - next) / interval as int + 1) * interval)
    }
}

/// `next` lies on the grid that starts at `start`, or at the end of time.
pub open spec fn on_grid(next: int, start: int, interval: int) -> bool {
    next == u64::MAX || exists|k: int| k >= 1 && next == start + #[trigger] (k * interval)
}

/// The first deadline after `now` on the grid through `next`.
///
/// An interval of zero counts as one.
pub fn advance_deadline(next: u64, now: u64, interval_ms: u64) -> (r: u64)
    ensures
        r == caught_up(next, now, if interval_ms == 0 { 1 } else { interval_ms }),
{
    let interval: u64 = if interval_ms == 0 {
        1
    } else {
        interval_ms
    };
    if now < next {
        return next;
    }
    let rounds: u64 = (now - next) / interval;
    let ghost exact = next + (rounds + 1) * interval;
    proof {
        let (a, b) = (rounds as int, interval as int);
        assert((a + 1) * b == a * b + b && 0 <= a * b) by (nonlinear_arith)
            requires
                a >= 0,
                b >= 1,
        ;
    }
    match rounds.checked_mul(interval) {
        Some(covered) => match next.checked_add(covered) {
            Some(reached) => match reached.checked_add(interval) {
                Some(due) => due,
                None => u64::MAX,
            },
            None => u64::MAX,
        },
        None => u64::MAX,
    }
}

/// A deadline that has caught up lies after now, at most one interval on, and on the
/// grid on which it lay before.
pub proof fn lemma_caught_up(next: u64, now: u64, interval: u64, start: int)
    requires
        interval >= 1,
        on_grid(next as int, start, interval as int),
        now < u64::MAX,
    ensures
        now < caught_up(next, now, interval),
        now >= next ==> caught_up(next, now, interval) <= now + interval,
        on_grid(caught_up(next, now, interval), start, interval as int),
{
    if now >= next {
        let b = interval as int;
        let d = now - next;
        let q = d / b;
        assert(q * b <= d < (q + 1) * b && (q + 1) * b <= d + b) by (nonlinear_arith)
            requires
                b >= 1,
                d >= 0,
                q == d / b,
        ;
        let due = caught_up(next, now, interval);
        if next < u64::MAX && due < u64::MAX {
            let k = choose|k: int| k >= 1 && next == start + #[trigger] (k * b);
            assert(k * b + (q + 1) * b == (k + q + 1) * b) by (nonlinear_arith);
            assert(q >= 0) by (nonlinear_arith)
                requires
                    b >= 1,
                    d >= 0,
                    q == d / b,
            ;
            assert(due == start + (k + q + 1) * b);
        }
    }
}

/// When a tier is next due once its interval was set at `now`: as before where the interval is
/// the same, else one interval from now.
pub open spec fn rescheduled(due: u64, step: u64, interval: int, now: u64) -> int {
    if interval == step {
        due as int
    } else {
        capped(now + interval)
    }
}

/// The tiers that a round has to serve.
#[derive(Clone, Copy, Debug, PartialEq, Eq, Structural)]
pub struct TiersFired {
    pub render: bool,
    pub logic: bool,
    pub biz: bool,
}

impl TiersFired {
    /// The tiers of these that are served for the first time.
    pub open spec fn first_after(self, served: TiersFired) -> TiersFired {
        TiersFired {
            render: self.render && !served.render,
            logic: self.logic && !served.logic,
            biz: self.biz && !served.biz,
        }
    }

    /// The tiers that were served once these were.
    pub open spec fn with(self, served: TiersFired) -> TiersFired {
        TiersFired {
            render: self.render || served.render,
            logic: self.logic || served.logic,
            biz: self.biz || served.biz,
        }
    }
}

impl Default for TiersFired {
    /// Nothing is due.
    fn default() -> (r: Self)
        ensures
            r == (TiersFired { render: false, logic: false, biz: false }),
    {
        TiersFired { render: false, logic: false, biz: false }
    }
}

/// The deadlines of the three tiers.
#[derive(Clone, Copy, Debug)]
pub struct ScheduleGrid {
    render_interval_ms: u64,
    logic_interval_ms: u64,
    biz_interval_ms: u64,
    next_render: u64,
    next_logic: u64,
    next_biz: u64,
}

/// `interval`, at least one.
pub open spec fn at_least_one(interval: u64) -> u64 {
    if interval == 0 {
        1
    } else {
        interval
    }
}

fn or_one(interval: u64) -> (r: u64)
    ensures
        r == at_least_one(interval),
{
    if interval == 0 {
        1
    } else {
        interval
    }
}

impl ScheduleGrid {
    pub closed spec fn render_step(self) -> u64 {
        self.render_interval_ms
    }

    pub closed spec fn logic_step(self) -> u64 {
        self.logic_interval_ms
    }

    pub closed spec fn biz_step(self) -> u64 {
        self.biz_interval_ms
    }

    pub closed spec fn render_due(self) -> u64 {
        self.next_render
    }

    pub closed spec fn logic_due(self) -> u64 {
        self.next_logic
    }

    pub closed spec fn biz_due(self) -> u64 {
        self.next_biz
    }

    /// No interval is zero.
    pub open spec fn wf(self) -> bool {
        self.render_step() >= 1 && self.logic_step() >= 1 && self.biz_step() >= 1
    }

    /// The logic and business deadlines lie on the grid that starts at `start`.
    pub open spec fn anchored(self, start: u64) -> bool {
        &&& on_grid(self.logic_due() as int, start as int, self.logic_step() as int)
        &&& on_grid(self.biz_due() as int, start as int, self.biz_step() as int)
    }

    /// A grid that starts at `start_ms`: each tier is first due one interval later. An
    /// interval of zero counts as one.
    pub fn new(
        start_ms: u64,
        render_interval_ms: u64,
        logic_interval_ms: u64,
        biz_interval_ms: u64,
    ) -> (r: Self)
        ensures
            r.wf(),
            r.render_step() == at_least_one(render_interval_ms),
            r.logic_step() == at_least_one(logic_interval_ms),
            r.biz_step() == at_least_one(biz_interval_ms),
            r.render_due() == capped(start_ms + r.render_step()),
            r.logic_due() == capped(start_ms + r.logic_step()),
            r.biz_due() == capped(start_ms + r.biz_step()),
            r.anchored(start_ms),
    {
        let render: u64 = or_one(render_interval_ms);
        let logic: u64 = or_one(logic_interval_ms);
        let biz: u64 = or_one(biz_interval_ms);
        proof {
            assert(start_ms + 1 * (logic as int) == start_ms + logic);
            assert(start_ms + 1 * (biz as int) == start_ms + biz);
        }
        ScheduleGrid {
            render_interval_ms: render,
            logic_interval_ms: logic,
            biz_interval_ms: biz,
            next_render: start_ms.saturating_add(render),
            next_logic: start_ms.saturating_add(logic),
            next_biz: start_ms.saturating_add(biz),
        }
    }

    /// When the render tier is due.
    pub fn next_render(&self) -> (r: u64)
        ensures
            r == self.render_due(),
    {
        self.next_render
    }

    /// When the logic tier is due.
    pub fn next_logic(&self) -> (r: u64)
        ensures
            r == self.logic_due(),
    {
        self.next_logic
    }

    /// When the business tier is due.
    pub fn next_biz(&self) -> (r: u64)
        ensures
            r == self.biz_due(),
    {
        self.next_biz
    }

    /// The interval of the render tier.
    pub fn render_interval(&self) -> (r: u64)
        ensures
            r == self.render_step(),
    {
        self.render_interval_ms
    }

    /// When the first tier is due.
    pub fn min_deadline(&self) -> (r: u64)
        ensures
            r <= self.render_due(),
            r <= self.logic_due(),
            r <= self.biz_due(),
            r == self.render_due() || r == self.logic_due() || r == self.biz_due(),
    {
        let first: u64 = if self.next_render < self.next_logic {
            self.next_render
        } else {
            self.next_logic
        };
        if first < self.next_biz {
            first
        } else {
            self.next_biz
        }
    }

    /// The tiers that are due, each moved on to its next deadline after now.
    pub fn advance(&mut self, now_ms: u64) -> (fired: TiersFired)
        requires
            old(self).wf(),
        ensures
            final(self).wf(),
            final(self).render_step() == old(self).render_step(),
            final(self).logic_step() == old(self).logic_step(),
            final(self).biz_step() == old(self).biz_step(),
            fired.render == (now_ms >= old(self).render_due()),
            fired.logic == (now_ms >= old(self).logic_due()),
            fired.biz == (now_ms >= old(self).biz_due()),
            final(self).render_due() == caught_up(
                old(self).render_due(),
                now_ms,
                old(self).render_step(),
            ),
            final(self).logic_due() == caught_up(
                old(self).logic_due(),
                now_ms,
                old(self).logic_step(),
            ),
            final(self).biz_due() == caught_up(old(self).biz_due(), now_ms, old(self).biz_step()),
    {
        let fired: TiersFired = TiersFired {
            render: now_ms >= self.next_render,
            logic: now_ms >= self.next_logic,
            biz: now_ms >= self.next_biz,
        };
        self.next_render = advance_deadline(self.next_render, now_ms, self.render_interval_ms);
        self.next_logic = advance_deadline(self.next_logic, now_ms, self.logic_interval_ms);
        self.next_biz = advance_deadline(self.next_biz, now_ms, self.biz_interval_ms);
        fired
    }

    /// Switches the interval of the render tier; a change starts its grid at now.
    pub fn set_render_interval(&mut self, interval_ms: u64, now_ms: u64)
        requires
            old(self).wf(),
        ensures
            final(self).wf(),
            final(self).logic_step() == old(self).logic_step(),
            final(self).biz_step() == old(self).biz_step(),
            final(self).logic_due() == old(self).logic_due(),
            final(self).biz_due() == old(self).biz_due(),
            final(self).render_step() == at_least_one(interval_ms),
            final(self).render_due() == rescheduled(
                old(self).render_due(),
                old(self).render_step(),
                at_least_one(interval_ms) as int,
                now_ms,
            ),
    {
        let interval: u64 = or_one(interval_ms);
        if interval == self.render_interval_ms {
            return;
        }
        self.render_interval_ms = interval;
        self.next_render = now_ms.saturating_add(interval);
    }

    /// However late the rounds come, the deadlines stay on the grid of the start: the
    /// delays do not add up. `next` is this grid after a round at `now`.
    pub proof fn lemma_no_drift(self, next: ScheduleGrid, start: u64, now: u64)
        requires
            self.wf(),
            self.anchored(start),
            now < u64::MAX,
            next.logic_step() == self.logic_step(),
            next.biz_step() == self.biz_step(),
            next.logic_due() == caught_up(self.logic_due(), now, self.logic_step()),
            next.biz_due() == caught_up(self.biz_due(), now, self.biz_step()),
        ensures
            next.anchored(start),
            now < next.logic_due(),
            now < next.biz_due(),
    {
        lemma_caught_up(self.logic_due(), now, self.logic_step(), start as int);
        lemma_caught_up(self.biz_due(), now, self.biz_step(), start as int);
    }
}

/// The share of a second at a rate; without a rate the default.
pub open spec fn share_of_second(fps: Option<u32>) -> int {
    match fps {
        Some(n) => if n == 0 {
            1_000int
        } else {
            1_000int / n as int
        },
        None => RENDER_DEFAULT_INTERVAL_MS as int,
    }
}

/// The interval of the render tier at a rate: the share of a second, at least one
/// millisecond; without a rate the default.
pub fn render_interval_for(fps: Option<u32>) -> (r: u64)
    ensures
        r == share_of_second(fps),
{
    match fps {
        Some(n) => 1_000 / (if n == 0 {
            1u64
        } else {
            n as u64
        }),
        None => RENDER_DEFAULT_INTERVAL_MS,
    }
}

/// The deadlines of the sampling thread.
#[derive(Clone, Copy, Debug, PartialEq, Eq, Structural)]
pub struct SampleClock {
    pub cursor: u64,
    pub windows: u64,
    pub system: u64,
    pub activity: u64,
}

/// The samples that a round has to take.
#[derive(Clone, Copy, Debug, PartialEq, Eq, Structural)]
pub struct SamplesDue {
    pub cursor: bool,
    pub windows: bool,
    pub system: bool,
    pub activity: bool,
}

impl SampleClock {
    /// The samples that are due.
    pub open spec fn due_at(self, now: u64) -> SamplesDue {
        SamplesDue {
            cursor: now >= self.cursor,
            windows: now >= self.windows,
            system: now >= self.system,
            activity: now >= self.activity,
        }
    }

    /// The clock with every deadline after now.
    pub open spec fn moved_on(self, now: u64) -> SampleClock {
        SampleClock {
            cursor: caught_up(self.cursor, now, CURSOR_INTERVAL_MS) as u64,
            windows: caught_up(self.windows, now, WINDOWS_INTERVAL_MS) as u64,
            system: caught_up(self.system, now, SYSTEM_INTERVAL_MS) as u64,
            activity: caught_up(self.activity, now, ACTIVITY_INTERVAL_MS) as u64,
        }
    }

    /// A clock on which everything is due at once.
    pub fn new() -> (r: Self)
        ensures
            r == (SampleClock { cursor: 0, windows: 0, system: 0, activity: 0 }),
    {
        SampleClock { cursor: 0, windows: 0, system: 0, activity: 0 }
    }

    /// When the first sample is due.
    pub fn next_due(&self) -> (r: u64)
        ensures
            r <= self.cursor && r <= self.windows && r <= self.system && r <= self.activity,
            r == self.cursor || r == self.windows || r == self.system || r == self.activity,
    {
        let mut r: u64 = self.cursor;
        if self.windows < r {
            r = self.windows;
        }
        if self.system < r {
            r = self.system;
        }
        if self.activity < r {
            r = self.activity;
        }
        r
    }

    /// The samples that are due, each moved on to its next deadline after now.
    pub fn advance(&mut self, now: u64) -> (due: SamplesDue)
        ensures
            due == old(self).due_at(now),
            final(self).cursor == caught_up(old(self).cursor, now, CURSOR_INTERVAL_MS),
            final(self).windows == caught_up(old(self).windows, now, WINDOWS_INTERVAL_MS),
            final(self).system == caught_up(old(self).system, now, SYSTEM_INTERVAL_MS),
            final(self).activity == caught_up(old(self).activity, now, ACTIVITY_INTERVAL_MS),
            *final(self) == old(self).moved_on(now),
    {
        let due: SamplesDue = SamplesDue {
            cursor: now >= self.cursor,
            windows: now >= self.windows,
            system: now >= self.system,
            activity: now >= self.activity,
        };
        self.cursor = advance_deadline(self.cursor, now, CURSOR_INTERVAL_MS);
        self.windows = advance_deadline(self.windows, now, WINDOWS_INTERVAL_MS);
        self.system = advance_deadline(self.system, now, SYSTEM_INTERVAL_MS);
        self.activity = advance_deadline(self.activity, now, ACTIVITY_INTERVAL_MS);
        due
    }
}

/// A deadline that is not reached yet stays; one that is reached moves on by whole intervals, as
/// few as bring it after now. At the end of time it stays there.
pub proof fn lemma_deadlines_move_by_whole_intervals(next: u64, now: u64, interval: u64, k: int)
    requires
        interval >= 1,
    ensures
        ({
            let due = caught_up(next, now, interval);
            &&& now < next ==> due == next
            &&& now >= next && k >= 0 && next + k * interval <= now < next + (k + 1) * interval
                <= u64::MAX ==> due == next + (k + 1) * interval
            &&& due <= u64::MAX
            &&& now < u64::MAX ==> due > now
        }),
{
    let b = interval as int;
    if now >= next {
        let d = now - next;
        let q = d / b;
        assert(q * b <= d < (q + 1) * b && q >= 0) by (nonlinear_arith)
            requires
                b >= 1,
                d >= 0,
                q == d / b,
        ;
        if k >= 0 && next + k * b <= now < next + (k + 1) * b {
            assert(k == q) by (nonlinear_arith)
                requires
                    b >= 1,
                    k * b <= d < (k + 1) * b,
                    q * b <= d < (q + 1) * b,
            ;
        }
    }
}

/// A number is held only where it is too large.
pub proof fn lemma_capped_is_the_number_or_the_end(n: int)
    ensures
        n <= u64::MAX ==> capped(n) == n,
        n >= u64::MAX ==> capped(n) == u64::MAX,
{
}

/// Samples are taken when their time has come, each kind at its own pace: the cursor every fifty
/// milliseconds, the windows every two seconds, the system every ten and the user's activity
/// every second. After a round nothing is overdue, and nothing waits for more than its pace.
pub proof fn lemma_samples_keep_their_pace(clock: SampleClock, now: u64)
    requires
        now <= u64::MAX - 10_000,
    ensures
        ({
            let (due, next) = (clock.due_at(now), clock.moved_on(now));
            &&& due.cursor <==> clock.cursor <= now
            &&& due.windows <==> clock.windows <= now
            &&& due.system <==> clock.system <= now
            &&& due.activity <==> clock.activity <= now
            &&& due.cursor ==> now < next.cursor <= now + 50 && (next.cursor - clock.cursor) % 50
                == 0
            &&& due.windows ==> now < next.windows <= now + 2_000 && (next.windows
                - clock.windows) % 2_000 == 0
            &&& due.system ==> now < next.system <= now + 10_000 && (next.system - clock.system)
                % 10_000 == 0
            &&& due.activity ==> now < next.activity <= now + 1_000 && (next.activity
                - clock.activity) % 1_000 == 0
            &&& !due.cursor ==> next.cursor == clock.cursor
            &&& !due.windows ==> next.windows == clock.windows
            &&& !due.system ==> next.system == clock.system
            &&& !due.activity ==> next.activity == clock.activity
        }),
{
}

/// Setting the interval that is set already moves nothing; setting another one makes the tier
/// due one whole interval later.
pub proof fn lemma_new_interval_starts_now(due: u64, step: u64, interval: u64, now: u64)
    ensures
        rescheduled(due, step, step as int, now) == due,
        interval != step && now + interval <= u64::MAX ==> rescheduled(
            due,
            step,
            interval as int,
            now,
        ) == now + interval,
        interval != step && now + interval > u64::MAX ==> rescheduled(
            due,
            step,
            interval as int,
            now,
        ) == u64::MAX,
        at_least_one(interval) >= 1,
        interval >= 1 ==> at_least_one(interval) == interval,
        at_least_one(0) == 1,
{
}

/// A tier is served for the first time once: it is then among those that were served, and stays
/// there.
pub proof fn lemma_tiers_are_first_once(fired: TiersFired, served: TiersFired, later: TiersFired)
    ensures
        ({
            let first = fired.first_after(served);
            let after = fired.with(served);
            let again = later.first_after(after);
            &&& first.render <==> fired.render && !served.render
            &&& first.logic <==> fired.logic && !served.logic
            &&& first.biz <==> fired.biz && !served.biz
            &&& after.render <==> first.render || served.render
            &&& after.logic <==> first.logic || served.logic
            &&& after.biz <==> first.biz || served.biz
            &&& !(first.render && again.render) && !(first.logic && again.logic) && !(first.biz
                && again.biz)
        }),
{
}

/// The grid of a tier starts one interval after its start and goes on in whole intervals: one
/// interval after a place on the grid is the next one.
pub proof fn lemma_grid_goes_on_in_intervals(next: int, start: int, interval: int)
    requires
        interval > 0,
    ensures
        on_grid(start + interval, start, interval),
        on_grid(next, start, interval) && next != u64::MAX ==> next >= start + interval && (next
            - start) % interval == 0 && on_grid(next + interval, start, interval),
{
    assert(start + interval == start + 1 * interval);
    if on_grid(next, start, interval) && next != u64::MAX {
        let k = choose|k: int| k >= 1 && next == start + #[trigger] (k * interval);
        assert(k * interval >= interval) by (nonlinear_arith)
            requires
                k >= 1,
                interval > 0,
        ;
        assert((k * interval) % interval == 0) by (nonlinear_arith)
            requires
                interval > 0,
        ;
        assert((k + 1) * interval == k * interval + interval) by (nonlinear_arith);
        assert(next + interval == start + (k + 1) * interval);
    }
}

} // verus!
