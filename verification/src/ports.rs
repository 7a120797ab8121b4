//! The desktop as the pet meets it: where its window stands, how the work areas of
//! the monitors bound it, and which window tops it can stand on.
//!
//! Coordinates of the desktop come in as they were measured and converted outside;
//! here they are compared, never computed with.

use crate::coreloop::kinds::Point;
use crate::scalar::Scalar;
use vstd::prelude::*;

verus! {

/// The bit pattern of negative infinity.
pub const NEG_INFINITY_BITS: u32 = 0xff80_0000;

/// The place of the pet window on the screen, in physical pixels.
#[derive(Debug)]
pub struct PetBBoxHandle {
    left: i32,
    top: i32,
    right: i32,
    bottom: i32,
}

impl PetBBoxHandle {
    /// The edges: left, top, right, bottom.
    pub closed spec fn edges(self) -> (i32, i32, i32, i32) {
        (self.left, self.top, self.right, self.bottom)
    }

    /// `(x, y)` lies inside; the right and the lower edge lie outside.
    pub open spec fn encloses(self, x: int, y: int) -> bool {
        let (left, top, right, bottom) = self.edges();
        left <= x < right && top <= y < bottom
    }

    /// An empty box at the origin.
    pub fn new() -> (r: Self)
        ensures
            r.edges() == (0i32, 0i32, 0i32, 0i32),
    {
        PetBBoxHandle { left: 0, top: 0, right: 0, bottom: 0 }
    }

    /// Moves the box.
    pub fn store(&mut self, left: i32, top: i32, right: i32, bottom: i32)
        ensures
            final(self).edges() == (left, top, right, bottom),
    {
        self.left = left;
        self.top = top;
        self.right = right;
        self.bottom = bottom;
    }

    /// The edges: left, top, right, bottom.
    pub fn load(&self) -> (r: (i32, i32, i32, i32))
        ensures
            r == self.edges(),
    {
        (self.left, self.top, self.right, self.bottom)
    }

    /// Whether the point lies inside; the right and the lower edge lie outside.
    pub fn contains(&self, x: i32, y: i32) -> (r: bool)
        ensures
            r == self.encloses(x as int, y as int),
    {
        x >= self.left && x < self.right && y >= self.top && y < self.bottom
    }
}

impl Default for PetBBoxHandle {
    /// An empty box at the origin.
    fn default() -> (r: Self)
        ensures
            r.edges() == (0i32, 0i32, 0i32, 0i32),
    {
        PetBBoxHandle::new()
    }
}

/// A box without extent encloses nothing.
pub proof fn lemma_empty_box_encloses_nothing(area: PetBBoxHandle, x: int, y: int)
    requires
        area.edges().0 >= area.edges().2 || area.edges().1 >= area.edges().3,
    ensures
        !area.encloses(x, y),
{
}

/// A monitor and its work area, in desktop coordinates.
#[derive(Clone, Copy, Debug, PartialEq, Eq, Structural)]
pub struct MonitorGeom {
    pub id: u64,
    /// Upper left corner.
    pub origin: Point,
    pub size: Point,
    /// Upper left corner of the work area.
    pub work_origin: Point,
    pub work_size: Point,
    /// Lower right corner of the work area.
    pub work_end: Point,
    pub primary: bool,
}

impl MonitorGeom {
    /// The two agree in geometry and in being the primary monitor.
    pub open spec fn alike(self, other: MonitorGeom) -> bool {
        &&& self.origin.equals(other.origin)
        &&& self.size.equals(other.size)
        &&& self.work_origin.equals(other.work_origin)
        &&& self.work_size.equals(other.work_size)
        &&& self.primary == other.primary
    }

    /// All measures are numbers.
    pub open spec fn measured(self) -> bool {
        &&& !self.origin.x.nan()
        &&& !self.origin.y.nan()
        &&& !self.size.x.nan()
        &&& !self.size.y.nan()
        &&& !self.work_origin.x.nan()
        &&& !self.work_origin.y.nan()
        &&& !self.work_size.x.nan()
        &&& !self.work_size.y.nan()
    }

    /// `x` lies in the work area; its right edge lies outside.
    pub open spec fn spans(self, x: Scalar) -> bool {
        !self.work_origin.x.nan() && !x.nan() && !x.below(self.work_origin.x) && x.below(
            self.work_end.x,
        )
    }

    fn agrees(&self, other: &MonitorGeom) -> (r: bool)
        ensures
            r == self.alike(*other),
    {
        self.origin.same(other.origin) && self.size.same(other.size) && self.work_origin.same(
            other.work_origin,
        ) && self.work_size.same(other.work_size) && self.primary == other.primary
    }
}

/// The first place from `from` on at which a monitor with this number stands, or the end.
pub open spec fn place_of(monitors: Seq<MonitorGeom>, id: u64, from: int) -> int
    decreases monitors.len() - from,
{
    if from >= monitors.len() {
        monitors.len() as int
    } else if monitors[from].id == id {
        from
    } else {
        place_of(monitors, id, from + 1)
    }
}

/// `monitor` stands in `monitors` as it is.
pub open spec fn found_alike(monitors: Seq<MonitorGeom>, monitor: MonitorGeom) -> bool {
    let at = place_of(monitors, monitor.id, 0);
    at < monitors.len() && monitor.alike(monitors[at])
}

/// The monitors differ in number, or one of them is gone or has another geometry.
pub open spec fn rearranged(prev: Seq<MonitorGeom>, now: Seq<MonitorGeom>) -> bool {
    prev.len() != now.len() || exists|i: int|
        0 <= i < prev.len() && !found_alike(now, #[trigger] prev[i])
}

fn holds_alike(monitors: &[MonitorGeom], monitor: &MonitorGeom) -> (r: bool)
    ensures
        r == found_alike(monitors@, *monitor),
{
    let mut i: usize = 0;
    while i < monitors.len() && monitors[i].id != monitor.id
        invariant
            i <= monitors.len(),
            place_of(monitors@, monitor.id, 0) == place_of(monitors@, monitor.id, i as int),
        decreases monitors.len() - i,
    {
        i = i + 1;
    }
    i < monitors.len() && monitor.agrees(&monitors[i])
}

/// Whether the monitors have changed.
///
/// The monitors are compared as a set: their order does not matter.
pub fn monitors_changed(prev: &[MonitorGeom], now: &[MonitorGeom]) -> (r: bool)
    ensures
        r == rearranged(prev@, now@),
{
    if prev.len() != now.len() {
        return true;
    }
    let mut i: usize = 0;
    while i < prev.len()
        invariant
            i <= prev.len(),
            forall|j: int| 0 <= j < i ==> found_alike(now@, #[trigger] prev@[j]),
        decreases prev.len() - i,
    {
        if !holds_alike(now, &prev[i]) {
            assert(!found_alike(now@, prev@[i as int]));
            return true;
        }
        i = i + 1;
    }
    false
}

/// The monitors that are known once others were seen.
pub open spec fn known_after(known: Seq<MonitorGeom>, seen: Seq<MonitorGeom>) -> Seq<MonitorGeom> {
    if rearranged(known, seen) {
        seen
    } else {
        known
    }
}

/// Takes the monitors that were seen over where they have changed; says whether they have.
pub fn apply_monitors(known: &mut Vec<MonitorGeom>, seen: Vec<MonitorGeom>) -> (changed: bool)
    ensures
        changed == rearranged(old(known)@, seen@),
        final(known)@ == known_after(old(known)@, seen@),
{
    if monitors_changed(known.as_slice(), seen.as_slice()) {
        *known = seen;
        true
    } else {
        false
    }
}

proof fn lemma_place_of_own(monitors: Seq<MonitorGeom>, i: int, from: int)
    requires
        0 <= from <= i < monitors.len(),
        forall|j: int, k: int|
            0 <= j < k < monitors.len() ==> (#[trigger] monitors[j]).id != (
            #[trigger] monitors[k]).id,
    ensures
        place_of(monitors, monitors[i].id, from) == i,
    decreases i - from,
{
    if from < i {
        lemma_place_of_own(monitors, i, from + 1);
    }
}

/// Monitors that were only put in another order have not changed.
///
/// Each has a number of its own, and its measures are numbers.
pub proof fn lemma_order_does_not_matter(
    prev: Seq<MonitorGeom>,
    now: Seq<MonitorGeom>,
    at: Seq<int>,
)
    requires
        prev.len() == now.len() == at.len(),
        forall|i: int| 0 <= i < at.len() ==> 0 <= #[trigger] at[i] < now.len(),
        forall|i: int| 0 <= i < prev.len() ==> #[trigger] prev[i] == now[at[i]],
        forall|i: int| 0 <= i < now.len() ==> (#[trigger] now[i]).measured(),
        forall|j: int, k: int|
            0 <= j < k < now.len() ==> (#[trigger] now[j]).id != (#[trigger] now[k]).id,
    ensures
        !rearranged(prev, now),
{
    assert forall|i: int| 0 <= i < prev.len() implies found_alike(now, #[trigger] prev[i]) by {
        lemma_place_of_own(now, at[i], 0);
    }
}

/// Monitors compared with themselves have not changed.
pub proof fn lemma_same_monitors_unchanged(monitors: Seq<MonitorGeom>)
    requires
        forall|i: int| 0 <= i < monitors.len() ==> (#[trigger] monitors[i]).measured(),
        forall|j: int, k: int|
            0 <= j < k < monitors.len() ==> (#[trigger] monitors[j]).id != (
            #[trigger] monitors[k]).id,
    ensures
        !rearranged(monitors, monitors),
{
    lemma_order_does_not_matter(monitors, monitors, Seq::new(monitors.len(), |i: int| i));
}

/// How far to the left and to the right the pet may go.
#[derive(Clone, Copy, Debug, PartialEq, Eq, Structural)]
pub struct HorizontalBounds {
    pub left: Scalar,
    pub right: Scalar,
}

/// No bounds at all.
pub open spec fn unbounded() -> HorizontalBounds {
    HorizontalBounds {
        left: Scalar { bits: NEG_INFINITY_BITS },
        right: Scalar { bits: crate::scalar::INFINITY_BITS },
    }
}

/// The first place from `from` on at which a monitor spans `x`, or the end.
pub open spec fn spanning(monitors: Seq<MonitorGeom>, x: Scalar, from: int) -> int
    decreases monitors.len() - from,
{
    if from >= monitors.len() {
        monitors.len() as int
    } else if monitors[from].spans(x) {
        from
    } else {
        spanning(monitors, x, from + 1)
    }
}

/// The first of the places up to `to` at which nothing is below.
pub open spec fn least(away: Seq<Scalar>, to: int) -> int
    decreases to,
{
    if to <= 1 {
        0
    } else {
        let before = least(away, to - 1);
        if away[to - 1].below(away[before]) {
            to - 1
        } else {
            before
        }
    }
}

/// Between which edges the pet at `x` bounces: those of the work area that spans `x`,
/// else those of the nearest one.
pub open spec fn bounds_at(
    monitors: Seq<MonitorGeom>,
    x: Scalar,
    away: Seq<Scalar>,
) -> HorizontalBounds {
    if monitors.len() == 0 {
        unbounded()
    } else {
        let hit = spanning(monitors, x, 0);
        let at = if hit < monitors.len() {
            hit
        } else {
            least(away, away.len() as int)
        };
        HorizontalBounds { left: monitors[at].work_origin.x, right: monitors[at].work_end.x }
    }
}

/// Between which edges the pet at `x` bounces.
///
/// `away` holds, for each monitor, how far the middle of its work area is from `x`.
pub fn bounds_of(monitors: &[MonitorGeom], x: Scalar, away: &[Scalar]) -> (r:
    HorizontalBounds)
    requires
        away.len() == monitors.len(),
    ensures
        r == bounds_at(monitors@, x, away@),
{
    let mut i: usize = 0;
    while i < monitors.len()
        invariant
            i <= monitors.len(),
            spanning(monitors@, x, 0) == spanning(monitors@, x, i as int),
        decreases monitors.len() - i,
    {
        let m = &monitors[i];
        if !m.work_origin.x.is_nan() && !x.is_nan() && !x.less(m.work_origin.x) && x.less(
            m.work_end.x,
        ) {
            return HorizontalBounds { left: m.work_origin.x, right: m.work_end.x };
        }
        i = i + 1;
    }
    if monitors.len() == 0 {
        return HorizontalBounds {
            left: Scalar { bits: NEG_INFINITY_BITS },
            right: Scalar { bits: crate::scalar::INFINITY_BITS },
        };
    }
    let mut best: usize = 0;
    let mut j: usize = 1;
    while j < away.len()
        invariant
            1 <= j <= away.len(),
            best < j,
            best == least(away@, j as int),
        decreases away.len() - j,
    {
        if away[j].less(away[best]) {
            best = j;
        }
        j = j + 1;
    }
    HorizontalBounds { left: monitors[best].work_origin.x, right: monitors[best].work_end.x }
}

/// The lowest of the values, or positive infinity.
pub open spec fn lowest(values: Seq<Scalar>) -> Scalar
    decreases values.len(),
{
    if values.len() == 0 {
        Scalar { bits: crate::scalar::INFINITY_BITS }
    } else {
        lowest(values.drop_last()).lesser(values.last())
    }
}

/// The highest of the values, or negative infinity.
pub open spec fn highest(values: Seq<Scalar>) -> Scalar
    decreases values.len(),
{
    if values.len() == 0 {
        Scalar { bits: NEG_INFINITY_BITS }
    } else {
        highest(values.drop_last()).greater(values.last())
    }
}

/// The range from the lowest start to the highest end; no bounds where that is none.
pub open spec fn hull(starts: Seq<Scalar>, ends: Seq<Scalar>) -> HorizontalBounds {
    if highest(ends).below(lowest(starts)) {
        unbounded()
    } else {
        HorizontalBounds { left: lowest(starts), right: highest(ends) }
    }
}

/// The left edges of the work areas.
pub open spec fn lefts(monitors: Seq<MonitorGeom>) -> Seq<Scalar> {
    monitors.map_values(|m: MonitorGeom| m.work_origin.x)
}

/// The right edges of the work areas.
pub open spec fn rights(monitors: Seq<MonitorGeom>) -> Seq<Scalar> {
    monitors.map_values(|m: MonitorGeom| m.work_end.x)
}

/// The upper edges of the work areas.
pub open spec fn tops(monitors: Seq<MonitorGeom>) -> Seq<Scalar> {
    monitors.map_values(|m: MonitorGeom| m.work_origin.y)
}

/// The lower edges of the work areas.
pub open spec fn bottoms(monitors: Seq<MonitorGeom>) -> Seq<Scalar> {
    monitors.map_values(|m: MonitorGeom| m.work_end.y)
}

/// How far the work areas of all monitors together reach to the left and to the right.
///
/// Without a monitor there are no bounds.
pub fn vd_bounds_of(monitors: &[MonitorGeom]) -> (r: HorizontalBounds)
    ensures
        r == hull(lefts(monitors@), rights(monitors@)),
{
    let mut left = Scalar { bits: crate::scalar::INFINITY_BITS };
    let mut right = Scalar { bits: NEG_INFINITY_BITS };
    let mut i: usize = 0;
    assert(lefts(monitors@.take(0)) =~= Seq::empty());
    assert(rights(monitors@.take(0)) =~= Seq::empty());
    while i < monitors.len()
        invariant
            i <= monitors.len(),
            left == lowest(lefts(monitors@.take(i as int))),
            right == highest(rights(monitors@.take(i as int))),
        decreases monitors.len() - i,
    {
        left = left.min(monitors[i].work_origin.x);
        right = right.max(monitors[i].work_end.x);
        i = i + 1;
        proof {
            let taken = monitors@.take(i as int);
            let before = monitors@.take(i - 1);
            assert(lefts(taken).drop_last() =~= lefts(before));
            assert(rights(taken).drop_last() =~= rights(before));
        }
    }
    assert(monitors@.take(i as int) =~= monitors@);
    if right.less(left) {
        return HorizontalBounds {
            left: Scalar { bits: NEG_INFINITY_BITS },
            right: Scalar { bits: crate::scalar::INFINITY_BITS },
        };
    }
    HorizontalBounds { left, right }
}

/// How far up and how far down the work areas of all monitors together reach.
///
/// Without a monitor there are no bounds.
pub fn vd_vertical_span(monitors: &[MonitorGeom]) -> (r: (Scalar, Scalar))
    ensures
        r == (
            hull(tops(monitors@), bottoms(monitors@)).left,
            hull(tops(monitors@), bottoms(monitors@)).right,
        ),
{
    let mut top = Scalar { bits: crate::scalar::INFINITY_BITS };
    let mut bottom = Scalar { bits: NEG_INFINITY_BITS };
    let mut i: usize = 0;
    assert(tops(monitors@.take(0)) =~= Seq::empty());
    assert(bottoms(monitors@.take(0)) =~= Seq::empty());
    while i < monitors.len()
        invariant
            i <= monitors.len(),
            top == lowest(tops(monitors@.take(i as int))),
            bottom == highest(bottoms(monitors@.take(i as int))),
        decreases monitors.len() - i,
    {
        top = top.min(monitors[i].work_origin.y);
        bottom = bottom.max(monitors[i].work_end.y);
        i = i + 1;
        proof {
            let taken = monitors@.take(i as int);
            let before = monitors@.take(i - 1);
            assert(tops(taken).drop_last() =~= tops(before));
            assert(bottoms(taken).drop_last() =~= bottoms(before));
        }
    }
    assert(monitors@.take(i as int) =~= monitors@);
    if bottom.less(top) {
        return (
            Scalar { bits: NEG_INFINITY_BITS },
            Scalar { bits: crate::scalar::INFINITY_BITS },
        );
    }
    (top, bottom)
}

proof fn lemma_lowest(values: Seq<Scalar>, i: int)
    ensures
        !lowest(values).nan(),
        0 <= i < values.len() && !values[i].nan() ==> lowest(values).key() <= values[i].key(),
    decreases values.len(),
{
    if values.len() > 0 {
        lemma_lowest(values.drop_last(), i);
    }
}

proof fn lemma_highest(values: Seq<Scalar>, i: int)
    ensures
        !highest(values).nan(),
        0 <= i < values.len() && !values[i].nan() ==> values[i].key() <= highest(values).key(),
    decreases values.len(),
{
    if values.len() > 0 {
        lemma_highest(values.drop_last(), i);
    }
}

/// The bounds of the whole desktop are a range, and every work area lies inside.
pub proof fn lemma_desktop_encloses(monitors: Seq<MonitorGeom>, i: int)
    requires
        0 <= i < monitors.len(),
    ensures
        ({
            let h = hull(lefts(monitors), rights(monitors));
            let v = hull(tops(monitors), bottoms(monitors));
            let m = monitors[i];
            &&& (crate::coreloop::kinds::DragBounds {
                left: h.left,
                right: h.right,
                top: v.left,
                bottom: v.right,
            }).wf()
            &&& !m.work_origin.x.nan() ==> h.left.key() <= m.work_origin.x.key()
            &&& !m.work_end.x.nan() ==> m.work_end.x.key() <= h.right.key()
            &&& !m.work_origin.y.nan() ==> v.left.key() <= m.work_origin.y.key()
            &&& !m.work_end.y.nan() ==> m.work_end.y.key() <= v.right.key()
        }),
{
    lemma_lowest(lefts(monitors), i);
    lemma_highest(rights(monitors), i);
    lemma_lowest(tops(monitors), i);
    lemma_highest(bottoms(monitors), i);
}

/// The scale of a monitor, or one where it is no positive number.
pub open spec fn usable(scale: Scalar) -> Scalar {
    if scale.finite() && scale.key() > 0 {
        scale
    } else {
        Scalar { bits: crate::scalar::ONE_BITS }
    }
}

/// The scale of a monitor, or one where it is no positive number.
pub fn safe_scale(scale: Scalar) -> (r: Scalar)
    ensures
        r == usable(scale),
{
    if scale.is_finite() && (Scalar { bits: 0 }).less(scale) {
        scale
    } else {
        Scalar::one()
    }
}

/// The top of a window, as it was seen.
#[derive(Clone, Copy, Debug, PartialEq, Eq, Structural)]
pub struct WindowBand {
    pub left: Scalar,
    pub top: Scalar,
    pub right: Scalar,
}

/// A line on which the pet can stand.
#[derive(Clone, Copy, Debug, PartialEq, Eq, Structural)]
pub struct PlatformBand {
    pub left: Scalar,
    pub top: Scalar,
    pub right: Scalar,
}

/// All lines on which the pet can stand.
#[derive(Clone, Debug)]
pub struct PlatformInputs {
    pub titlebars: Vec<PlatformBand>,
    pub taskbars: Vec<PlatformBand>,
}

/// The line along the top of a window.
pub open spec fn band(seen: WindowBand) -> PlatformBand {
    PlatformBand { left: seen.left, top: seen.top, right: seen.right }
}

/// The line along the top of a window.
pub fn to_platform_band(seen: WindowBand) -> (r: PlatformBand)
    ensures
        r == band(seen),
{
    PlatformBand { left: seen.left, top: seen.top, right: seen.right }
}

fn bands(seen: &Vec<WindowBand>) -> (r: Vec<PlatformBand>)
    ensures
        r@ == seen@.map_values(|w: WindowBand| band(w)),
{
    let mut out: Vec<PlatformBand> = Vec::new();
    let mut i: usize = 0;
    while i < seen.len()
        invariant
            i <= seen.len(),
            out@ == seen@.take(i as int).map_values(|w: WindowBand| band(w)),
        decreases seen.len() - i,
    {
        out.push(to_platform_band(seen[i]));
        i = i + 1;
        assert(out@ =~= seen@.take(i as int).map_values(|w: WindowBand| band(w)));
    }
    assert(seen@.take(i as int) =~= seen@);
    out
}

/// The lines along the given title bars and task bars.
pub fn platform_inputs(titlebars: Vec<WindowBand>, taskbars: Vec<WindowBand>) -> (r: PlatformInputs)
    ensures
        r.titlebars@ == titlebars@.map_values(|w: WindowBand| band(w)),
        r.taskbars@ == taskbars@.map_values(|w: WindowBand| band(w)),
{
    PlatformInputs { titlebars: bands(&titlebars), taskbars: bands(&taskbars) }
}

/// The top of a window with these upper corners, left and right in order; none where
/// that is no line.
pub open spec fn top_of(width: int, height: int, a: Point, b: Point) -> Option<WindowBand> {
    let swapped = b.x.below(a.x) || a.x.nan() || b.x.nan();
    let left = if swapped { b.x } else { a.x };
    let right = if swapped { a.x } else { b.x };
    if width <= 0 || height <= 0 {
        None
    } else if !left.finite() || !right.finite() || !a.y.finite() || !left.below(right) {
        None
    } else {
        Some(WindowBand { left, top: a.y, right })
    }
}

/// The top of a window, from its extent in pixels and its two upper corners on the desktop.
pub fn rect_to_band(width: i64, height: i64, top_left: Point, top_right: Point) -> (r: Option<
    WindowBand,
>)
    ensures
        r == top_of(width as int, height as int, top_left, top_right),
{
    if width <= 0 || height <= 0 {
        return None;
    }
    let swapped = top_right.x.less(top_left.x) || top_left.x.is_nan() || top_right.x.is_nan();
    let left = if swapped {
        top_right.x
    } else {
        top_left.x
    };
    let right = if swapped {
        top_left.x
    } else {
        top_right.x
    };
    if !left.is_finite() || !right.is_finite() || !top_left.y.is_finite() || !left.less(right) {
        return None;
    }
    Some(WindowBand { left, top: top_left.y, right })
}

/// A window as it was found: its extent in pixels, and its two upper corners on the
/// desktop.
#[derive(Clone, Copy, Debug, PartialEq, Eq, Structural)]
pub struct SeenWindow {
    pub width: i64,
    pub height: i64,
    pub top_left: Point,
    pub top_right: Point,
}

impl SeenWindow {
    /// The top of the window; none where that is no line.
    pub open spec fn top(self) -> Option<WindowBand> {
        top_of(self.width as int, self.height as int, self.top_left, self.top_right)
    }
}

/// The tops of the windows that have one, in order.
pub open spec fn tops_of(windows: Seq<SeenWindow>) -> Seq<WindowBand>
    decreases windows.len(),
{
    if windows.len() == 0 {
        Seq::empty()
    } else {
        match windows.last().top() {
            Some(line) => tops_of(windows.drop_last()).push(line),
            None => tops_of(windows.drop_last()),
        }
    }
}

/// The lines along title bars and along task bars. A window whose top is no line is passed
/// over; task bars are never among the windows.
pub fn enumerate_window_bands(windows: &[SeenWindow]) -> (r: (Vec<WindowBand>, Vec<WindowBand>))
    ensures
        r.0@ == tops_of(windows@),
        r.1@ == Seq::<WindowBand>::empty(),
{
    let mut titlebars: Vec<WindowBand> = Vec::new();
    let mut i: usize = 0;
    while i < windows.len()
        invariant
            i <= windows.len(),
            titlebars@ == tops_of(windows@.take(i as int)),
        decreases windows.len() - i,
    {
        let w: SeenWindow = windows[i];
        if let Some(line) = rect_to_band(w.width, w.height, w.top_left, w.top_right) {
            titlebars.push(line);
        }
        i = i + 1;
        assert(windows@.take(i as int).drop_last() =~= windows@.take(i - 1));
    }
    assert(windows@.take(i as int) =~= windows@);
    (titlebars, Vec::new())
}

/// Every line that is offered is a line: it runs from left to right, and all of it is
/// somewhere.
pub proof fn lemma_tops_are_lines(windows: Seq<SeenWindow>, i: int)
    requires
        0 <= i < tops_of(windows).len(),
    ensures
        tops_of(windows).len() <= windows.len(),
        tops_of(windows)[i].left.finite(),
        tops_of(windows)[i].right.finite(),
        tops_of(windows)[i].top.finite(),
        tops_of(windows)[i].left.below(tops_of(windows)[i].right),
    decreases windows.len(),
{
    let before = tops_of(windows.drop_last());
    if i < before.len() {
        lemma_tops_are_lines(windows.drop_last(), i);
    } else if before.len() > 0 {
        lemma_tops_are_lines(windows.drop_last(), before.len() - 1);
    }
}

proof fn lemma_place_holds(monitors: Seq<MonitorGeom>, id: u64, from: int)
    requires
        0 <= from <= monitors.len(),
    ensures
        from <= place_of(monitors, id, from) <= monitors.len(),
        place_of(monitors, id, from) < monitors.len() ==> monitors[place_of(
            monitors,
            id,
            from,
        )].id == id,
    decreases monitors.len() - from,
{
    if from < monitors.len() {
        lemma_place_holds(monitors, id, from + 1);
    }
}

/// Every change shows: a monitor that came or went, and one of which a corner, an extent or the
/// work area differs, or which became or ceased to be the primary one.
pub proof fn lemma_every_change_shows(prev: Seq<MonitorGeom>, now: Seq<MonitorGeom>, i: int)
    requires
        0 <= i < prev.len(),
    ensures
        prev.len() != now.len() ==> rearranged(prev, now),
        (forall|j: int| 0 <= j < now.len() ==> (#[trigger] now[j]).id != prev[i].id) ==> rearranged(
            prev,
            now,
        ),
        (forall|j: int|
            0 <= j < now.len() && (#[trigger] now[j]).id == prev[i].id ==> {
                ||| !prev[i].origin.equals(now[j].origin)
                ||| !prev[i].size.equals(now[j].size)
                ||| !prev[i].work_origin.equals(now[j].work_origin)
                ||| !prev[i].work_size.equals(now[j].work_size)
                ||| prev[i].primary != now[j].primary
            }) ==> rearranged(prev, now),
{
    lemma_place_holds(now, prev[i].id, 0);
    if prev.len() == now.len() && !rearranged(prev, now) {
        assert(found_alike(now, prev[i]));
        assert(now[place_of(now, prev[i].id, 0)].id == prev[i].id);
    }
}

/// What is known after monitors were seen is what was seen: seeing them again changes nothing.
///
/// Each has a number of its own, and its measures are numbers.
pub proof fn lemma_known_monitors_settle(known: Seq<MonitorGeom>, seen: Seq<MonitorGeom>)
    requires
        forall|i: int| 0 <= i < seen.len() ==> (#[trigger] seen[i]).measured(),
        forall|j: int, k: int|
            0 <= j < k < seen.len() ==> (#[trigger] seen[j]).id != (#[trigger] seen[k]).id,
    ensures
        !rearranged(known_after(known, seen), seen),
        known_after(known_after(known, seen), seen) == known_after(known, seen),
        known_after(known, seen) == known || known_after(known, seen) == seen,
{
    lemma_same_monitors_unchanged(seen);
}

/// Work areas that stand side by side share no place: the edge belongs to the right one, and
/// every place from the left edge of the one to the right edge of the other is in one of them.
pub proof fn lemma_edges_belong_to_one_area(a: MonitorGeom, b: MonitorGeom, x: Scalar)
    requires
        !a.work_origin.x.nan(),
        !a.work_end.x.nan(),
        !b.work_origin.x.nan(),
        !b.work_end.x.nan(),
        a.work_end.x.equals(b.work_origin.x),
        !x.nan(),
    ensures
        !(a.spans(x) && b.spans(x)),
        x.equals(a.work_end.x) ==> !a.spans(x),
        !x.below(a.work_origin.x) && x.below(b.work_end.x) ==> a.spans(x) || b.spans(x),
        a.spans(x) ==> !x.below(a.work_origin.x) && x.below(a.work_end.x),
{
}

proof fn lemma_spanning(monitors: Seq<MonitorGeom>, x: Scalar, from: int)
    requires
        0 <= from <= monitors.len(),
    ensures
        from <= spanning(monitors, x, from) <= monitors.len(),
        spanning(monitors, x, from) < monitors.len() ==> monitors[spanning(monitors, x, from)].spans(
            x,
        ),
        forall|j: int|
            from <= j < spanning(monitors, x, from) ==> !(#[trigger] monitors[j]).spans(x),
    decreases monitors.len() - from,
{
    if from < monitors.len() && !monitors[from].spans(x) {
        lemma_spanning(monitors, x, from + 1);
    }
}

proof fn lemma_least(away: Seq<Scalar>, to: int)
    requires
        1 <= to <= away.len(),
        forall|j: int| 0 <= j < to ==> !(#[trigger] away[j]).nan(),
    ensures
        0 <= least(away, to) < to,
        forall|j: int| 0 <= j < to ==> !(#[trigger] away[j]).below(away[least(away, to)]),
        forall|j: int| 0 <= j < least(away, to) ==> away[least(away, to)].below(#[trigger] away[j]),
    decreases to,
{
    if to > 1 {
        lemma_least(away, to - 1);
    }
}

/// The pet bounces between the edges of the first work area that spans its place. Where none
/// does, it bounces between those of the area whose middle is nearest, the first of those that
/// are equally near. Without a monitor nothing bounds it.
pub proof fn lemma_pet_bounces_in_its_area(monitors: Seq<MonitorGeom>, x: Scalar, away: Seq<Scalar>)
    requires
        away.len() == monitors.len(),
        forall|j: int| 0 <= j < away.len() ==> !(#[trigger] away[j]).nan(),
    ensures
        monitors.len() == 0 ==> bounds_at(monitors, x, away).left.bits == 0xff80_0000 && bounds_at(
            monitors,
            x,
            away,
        ).right.bits == 0x7f80_0000,
        monitors.len() > 0 ==> exists|i: int|
            {
                &&& 0 <= i < monitors.len()
                &&& bounds_at(monitors, x, away).left == (#[trigger] monitors[i]).work_origin.x
                &&& bounds_at(monitors, x, away).right == monitors[i].work_end.x
                &&& monitors[i].spans(x) ==> forall|j: int|
                    0 <= j < i ==> !(#[trigger] monitors[j]).spans(x)
                &&& !monitors[i].spans(x) ==> {
                    &&& forall|j: int|
                        0 <= j < monitors.len() ==> !(#[trigger] monitors[j]).spans(x)
                    &&& forall|j: int| 0 <= j < away.len() ==> !(#[trigger] away[j]).below(away[i])
                    &&& forall|j: int| 0 <= j < i ==> away[i].below(#[trigger] away[j])
                }
            },
{
    if monitors.len() > 0 {
        lemma_spanning(monitors, x, 0);
        lemma_least(away, away.len() as int);
        let hit = spanning(monitors, x, 0);
        let i = if hit < monitors.len() {
            hit
        } else {
            least(away, away.len() as int)
        };
        assert(bounds_at(monitors, x, away).left == monitors[i].work_origin.x);
    }
}

proof fn lemma_extremes_are_attained(values: Seq<Scalar>)
    requires
        forall|i: int| 0 <= i < values.len() ==> (#[trigger] values[i]).finite(),
    ensures
        values.len() > 0 ==> values.contains(lowest(values)) && values.contains(highest(values)),
    decreases values.len(),
{
    if values.len() > 0 {
        let head = values.drop_last();
        assert forall|i: int| 0 <= i < head.len() implies (#[trigger] head[i]).finite() by {
            assert(head[i] == values[i]);
        }
        lemma_extremes_are_attained(head);
        assert(values[values.len() - 1] == values.last());
        if head.len() > 0 {
            let a = choose|i: int| 0 <= i < head.len() && head[i] == lowest(head);
            let b = choose|i: int| 0 <= i < head.len() && head[i] == highest(head);
            assert(values[a] == lowest(head) && values[b] == highest(head));
        } else {
            assert(values.last().finite());
        }
    }
}

/// The bounds of the whole desktop are no wider than the work areas: each of them is the edge
/// of one.
pub proof fn lemma_desktop_is_no_wider(monitors: Seq<MonitorGeom>)
    requires
        monitors.len() > 0,
        forall|i: int|
            0 <= i < monitors.len() ==> {
                &&& (#[trigger] monitors[i]).work_origin.x.finite()
                &&& monitors[i].work_end.x.finite()
                &&& !monitors[i].work_end.x.below(monitors[i].work_origin.x)
            },
    ensures
        exists|i: int|
            0 <= i < monitors.len() && hull(lefts(monitors), rights(monitors)).left == (
            #[trigger] monitors[i]).work_origin.x,
        exists|i: int|
            0 <= i < monitors.len() && hull(lefts(monitors), rights(monitors)).right == (
            #[trigger] monitors[i]).work_end.x,
{
    let (l, r) = (lefts(monitors), rights(monitors));
    assert forall|i: int| 0 <= i < l.len() implies (#[trigger] l[i]).finite() by {
        assert(l[i] == monitors[i].work_origin.x);
    }
    assert forall|i: int| 0 <= i < r.len() implies (#[trigger] r[i]).finite() by {
        assert(r[i] == monitors[i].work_end.x);
    }
    lemma_extremes_are_attained(l);
    lemma_extremes_are_attained(r);
    let a = choose|i: int| 0 <= i < l.len() && l[i] == lowest(l);
    let b = choose|i: int| 0 <= i < r.len() && r[i] == highest(r);
    lemma_lowest(l, 0);
    lemma_highest(r, 0);
    assert(l[0] == monitors[0].work_origin.x && r[0] == monitors[0].work_end.x);
    assert(l[a] == monitors[a].work_origin.x && r[b] == monitors[b].work_end.x);
}

/// Without a work area the desktop has no bounds.
pub proof fn lemma_no_monitors_no_bounds()
    ensures
        hull(Seq::empty(), Seq::empty()).left.bits == 0xff80_0000,
        hull(Seq::empty(), Seq::empty()).right.bits == 0x7f80_0000,
{
}

/// A scale that is used is a positive number: the given one where it is such, else one.
pub proof fn lemma_scales_are_positive(scale: Scalar)
    ensures
        usable(scale).finite(),
        (Scalar { bits: 0 }).below(usable(scale)),
        usable(scale) == scale <==> scale.finite() && (Scalar { bits: 0 }).below(scale),
        usable(scale) == scale || usable(scale).bits == 0x3f80_0000,
{
}

/// The line along the top of a window runs between its upper corners, the left one first, at
/// the height of the first. There is one exactly where the window has an extent and its corners
/// are somewhere and apart; which corner was given as the left one makes no difference.
pub proof fn lemma_tops_run_between_the_corners(width: int, height: int, a: Point, b: Point)
    ensures
        top_of(width, height, a, b) matches Some(line) ==> {
            &&& line.left.below(line.right)
            &&& line.top == a.y
            &&& a.x.below(b.x) ==> line.left == a.x && line.right == b.x
            &&& b.x.below(a.x) ==> line.left == b.x && line.right == a.x
        },
        top_of(width, height, a, b) is Some <==> width > 0 && height > 0 && a.x.finite()
            && b.x.finite() && a.y.finite() && !a.x.equals(b.x),
        a.y == b.y ==> top_of(width, height, a, b) == top_of(width, height, b, a),
{
}

/// The lines of two lists of windows are those of the one and those of the other, and a window
/// gives the line along its own top.
pub proof fn lemma_lines_add_up(a: Seq<SeenWindow>, b: Seq<SeenWindow>, window: SeenWindow)
    ensures
        tops_of(a + b) == tops_of(a) + tops_of(b),
        window.top() matches Some(line) ==> tops_of(seq![window]) == seq![line],
        window.top() is None ==> tops_of(seq![window]).len() == 0,
    decreases b.len(),
{
    reveal_with_fuel(tops_of, 2);
    assert(seq![window].drop_last() =~= Seq::empty());
    if let Some(line) = window.top() {
        assert(tops_of(seq![window]) =~= seq![line]);
    }
    if b.len() == 0 {
        assert(a + b =~= a);
        assert(tops_of(a) + tops_of(b) =~= tops_of(a));
    } else {
        assert((a + b).drop_last() =~= a + b.drop_last());
        assert((a + b).last() == b.last());
        lemma_lines_add_up(a, b.drop_last(), window);
        assert(tops_of(a + b) =~= tops_of(a) + tops_of(b));
    }
}

/// The line to stand on is the line that was seen.
pub proof fn lemma_lines_stay_where_they_are(seen: WindowBand)
    ensures
        band(seen).left == seen.left,
        band(seen).top == seen.top,
        band(seen).right == seen.right,
{
}

} // verus!
