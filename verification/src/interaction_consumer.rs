//! Mouse events sorted out: left button, motion and wheel are inputs to gesture
//! recognition, the right button opens the menu, other buttons do nothing.
//!
//! A batch of events carries no times of its own. The inputs are stamped from the
//! start of the batch on, one millisecond apart, so that recognition sees them in
//! order; the batch ends with a tick at the last stamp.

use crate::coreloop::kinds::InteractionKind;
use crate::hook_sink::{ChannelSink, HookEvent, MouseButton};
use vstd::prelude::*;

verus! {

/// How long the right button may be held for a click, in milliseconds.
pub const RIGHT_CLICK_MAX_INTERVAL_MS: u64 = 500;

/// How far the mouse may move during a right click, in pixels.
pub const RIGHT_CLICK_MAX_MOVE_PX: i32 = 8;

/// How many kinds of interaction are counted.
pub const KIND_COUNT: usize = 9;

/// Where a right click ended, in screen pixels.
#[derive(Clone, Copy, Debug, PartialEq, Eq, Structural)]
pub struct RightClickHit {
    pub x: i32,
    pub y: i32,
}

/// What gesture recognition is fed with.
#[derive(Clone, Copy, Debug, PartialEq, Eq, Structural)]
pub enum InputEvent {
    Move { x: i32, y: i32 },
    Press { x: i32, y: i32 },
    Release { x: i32, y: i32 },
    Wheel { delta: i32 },
}

/// What the event is to gesture recognition, if anything.
pub open spec fn gesture(event: HookEvent) -> Option<InputEvent> {
    match event {
        HookEvent::Move { x, y } => Some(InputEvent::Move { x, y }),
        HookEvent::Down { button, x, y } => if button == MouseButton::Left {
            Some(InputEvent::Press { x, y })
        } else {
            None
        },
        HookEvent::Up { button, x, y } => if button == MouseButton::Left {
            Some(InputEvent::Release { x, y })
        } else {
            None
        },
        HookEvent::Wheel { delta, .. } => Some(InputEvent::Wheel { delta }),
    }
}

/// What the event is to gesture recognition, if anything.
pub fn to_input(event: HookEvent) -> (r: Option<InputEvent>)
    ensures
        r == gesture(event),
{
    match event {
        HookEvent::Move { x, y } => Some(InputEvent::Move { x, y }),
        HookEvent::Down { button: MouseButton::Left, x, y } => Some(InputEvent::Press { x, y }),
        HookEvent::Up { button: MouseButton::Left, x, y } => Some(InputEvent::Release { x, y }),
        HookEvent::Wheel { delta, .. } => Some(InputEvent::Wheel { delta }),
        _ => None,
    }
}

/// The right button goes down.
pub open spec fn right_press(event: HookEvent) -> bool {
    event matches HookEvent::Down { button, .. } && button == MouseButton::Right
}

/// The right button comes up.
pub open spec fn right_release(event: HookEvent) -> bool {
    event matches HookEvent::Up { button, .. } && button == MouseButton::Right
}

/// The number `n` steps after `from` on a 64-bit counter that wraps around.
pub open spec fn later(from: u64, n: nat) -> u64 {
    ((from + n) % 0x1_0000_0000_0000_0000) as u64
}

proof fn lemma_later_adds(from: u64, m: nat, n: nat)
    ensures
        later(later(from, m), n) == later(from, m + n),
        later(from, 0) == from,
        later(from, 1) == from.wrapping_add(1),
{
}

/// The inputs among the events, in order.
pub open spec fn gestures(events: Seq<HookEvent>) -> Seq<InputEvent>
    decreases events.len(),
{
    if events.len() == 0 {
        Seq::empty()
    } else {
        let before = gestures(events.drop_last());
        match gesture(events.last()) {
            Some(input) => before.push(input),
            None => before,
        }
    }
}

/// How often the right button goes down among the events.
pub open spec fn presses(events: Seq<HookEvent>) -> nat
    decreases events.len(),
{
    if events.len() == 0 {
        0
    } else {
        presses(events.drop_last()) + if right_press(events.last()) { 1nat } else { 0nat }
    }
}

/// How often the right button comes up among the events.
pub open spec fn releases(events: Seq<HookEvent>) -> nat
    decreases events.len(),
{
    if events.len() == 0 {
        0
    } else {
        releases(events.drop_last()) + if right_release(events.last()) { 1nat } else { 0nat }
    }
}

/// The right button held down, and the right clicks that nobody has taken yet.
#[verifier::ext_equal]
pub struct RightClicks {
    /// When and where the button went down.
    pub held: Option<(u64, i32, i32)>,
    pub clicks: Seq<RightClickHit>,
}

/// Down and up again make a click: soon enough, and close enough to each other.
pub open spec fn makes_click(down: (u64, i32, i32), x: int, y: int, at_ms: u64) -> bool {
    &&& at_ms - down.0 <= RIGHT_CLICK_MAX_INTERVAL_MS
    &&& -RIGHT_CLICK_MAX_MOVE_PX <= x - down.1 <= RIGHT_CLICK_MAX_MOVE_PX
    &&& -RIGHT_CLICK_MAX_MOVE_PX <= y - down.2 <= RIGHT_CLICK_MAX_MOVE_PX
}

impl RightClicks {
    /// The right button goes down; the last time counts.
    pub open spec fn pressed(self, x: i32, y: i32, at_ms: u64) -> RightClicks {
        RightClicks { held: Some((at_ms, x, y)), ..self }
    }

    /// The right button comes up.
    pub open spec fn released(self, x: i32, y: i32, at_ms: u64) -> RightClicks {
        RightClicks {
            held: None,
            clicks: match self.held {
                Some(down) => if makes_click(down, x as int, y as int, at_ms) {
                    self.clicks.push(RightClickHit { x, y })
                } else {
                    self.clicks
                },
                None => self.clicks,
            },
        }
    }

    /// What an event at this time leads to.
    pub open spec fn after(self, event: HookEvent, at_ms: u64) -> RightClicks {
        match event {
            HookEvent::Down { button, x, y } => if button == MouseButton::Right {
                self.pressed(x, y, at_ms)
            } else {
                self
            },
            HookEvent::Up { button, x, y } => if button == MouseButton::Right {
                self.released(x, y, at_ms)
            } else {
                self
            },
            _ => self,
        }
    }

    /// What a batch of events that starts at this time leads to.
    pub open spec fn after_all(self, events: Seq<HookEvent>, now_ms: u64) -> RightClicks
        decreases events.len(),
    {
        if events.len() == 0 {
            self
        } else {
            let before = events.drop_last();
            self.after_all(before, now_ms).after(
                events.last(),
                later(now_ms, gestures(before).len()),
            )
        }
    }
}

/// The right button: whether it is held, and the clicks it made.
#[derive(Debug)]
pub struct MenuState {
    pending: Option<(u64, i32, i32)>,
    clicks: Vec<RightClickHit>,
}

impl View for MenuState {
    type V = RightClicks;

    closed spec fn view(&self) -> RightClicks {
        RightClicks { held: self.pending, clicks: self.clicks@ }
    }
}

impl Default for MenuState {
    /// The button is up, there are no clicks.
    fn default() -> (r: Self)
        ensures
            r@ == (RightClicks { held: None, clicks: Seq::empty() }),
    {
        MenuState { pending: None, clicks: Vec::new() }
    }
}

impl MenuState {
    /// The button goes down.
    pub fn on_down(&mut self, x: i32, y: i32, now_ms: u64)
        ensures
            final(self)@ == old(self)@.pressed(x, y, now_ms),
    {
        self.pending = Some((now_ms, x, y));
    }

    /// The button comes up; says whether that made a click.
    pub fn on_up(&mut self, x: i32, y: i32, now_ms: u64) -> (r: bool)
        ensures
            final(self)@ == old(self)@.released(x, y, now_ms),
            r == (old(self)@.held matches Some(down) && makes_click(
                down,
                x as int,
                y as int,
                now_ms,
            )),
    {
        match self.pending {
            None => false,
            Some(down) => {
                self.pending = None;
                let held_ms: u64 = if now_ms < down.0 {
                    0
                } else {
                    now_ms - down.0
                };
                let dx: i64 = x as i64 - down.1 as i64;
                let dy: i64 = y as i64 - down.2 as i64;
                let limit: i64 = RIGHT_CLICK_MAX_MOVE_PX as i64;
                let click = held_ms <= RIGHT_CLICK_MAX_INTERVAL_MS && -limit <= dx && dx <= limit
                    && -limit <= dy && dy <= limit;
                if click {
                    self.clicks.push(RightClickHit { x, y });
                }
                click
            },
        }
    }

    /// Takes all clicks, oldest first.
    pub fn take_clicks(&mut self) -> (r: Vec<RightClickHit>)
        ensures
            r@ == old(self)@.clicks,
            final(self)@ == (RightClicks { clicks: Seq::empty(), ..old(self)@ }),
    {
        let mut taken: Vec<RightClickHit> = Vec::new();
        std::mem::swap(&mut taken, &mut self.clicks);
        taken
    }
}

/// A batch of inputs to gesture recognition.
#[derive(Debug)]
pub struct Batch {
    /// The inputs, each with its time.
    pub inputs: Vec<(InputEvent, u64)>,
    /// When recognition ticks after the last input.
    pub tail_ms: u64,
}

/// The place at which an interaction is counted.
pub open spec fn index_of(kind: InteractionKind) -> int {
    match kind {
        InteractionKind::Hover => 0,
        InteractionKind::Click => 1,
        InteractionKind::DoubleClick => 2,
        InteractionKind::Stroke => 3,
        InteractionKind::Tickle => 4,
        InteractionKind::EarTwitch => 5,
        InteractionKind::DragStart => 6,
        InteractionKind::Throw => 7,
        InteractionKind::Other => 8,
    }
}

/// How often a kind is among `kinds`.
pub open spec fn times(kinds: Seq<InteractionKind>, kind: InteractionKind) -> nat
    decreases kinds.len(),
{
    if kinds.len() == 0 {
        0
    } else {
        times(kinds.drop_last(), kind) + if kinds.last() == kind {
            1nat
        } else {
            0nat
        }
    }
}

fn place_of(kind: InteractionKind) -> (r: usize)
    ensures
        r == index_of(kind),
        r < KIND_COUNT,
{
    match kind {
        InteractionKind::Hover => 0,
        InteractionKind::Click => 1,
        InteractionKind::DoubleClick => 2,
        InteractionKind::Stroke => 3,
        InteractionKind::Tickle => 4,
        InteractionKind::EarTwitch => 5,
        InteractionKind::DragStart => 6,
        InteractionKind::Throw => 7,
        InteractionKind::Other => 8,
    }
}

/// What sorts the mouse events out and counts what they led to.
#[derive(Debug)]
pub struct InteractionConsumer {
    menu: MenuState,
    right_down: u64,
    right_up: u64,
    stats: Vec<u64>,
}

impl InteractionConsumer {
    /// The right button and its clicks.
    pub closed spec fn menu(self) -> RightClicks {
        self.menu@
    }

    /// How often the right button went down.
    pub closed spec fn downs(self) -> u64 {
        self.right_down
    }

    /// How often the right button came up.
    pub closed spec fn ups(self) -> u64 {
        self.right_up
    }

    /// How often each kind of interaction was recognised.
    pub closed spec fn tally(self) -> Seq<u64> {
        self.stats@
    }

    pub open spec fn wf(self) -> bool {
        self.tally().len() == KIND_COUNT
    }

    /// Nothing has happened yet.
    pub fn new() -> (r: Self)
        ensures
            r.wf(),
            r.menu() == (RightClicks { held: None, clicks: Seq::empty() }),
            r.downs() == 0,
            r.ups() == 0,
            r.tally() == Seq::new(KIND_COUNT as nat, |i: int| 0u64),
    {
        let mut stats: Vec<u64> = Vec::new();
        let mut i: usize = 0;
        while i < KIND_COUNT
            invariant
                i <= KIND_COUNT,
                stats@ == Seq::new(i as nat, |j: int| 0u64),
            decreases KIND_COUNT - i,
        {
            stats.push(0);
            i = i + 1;
            assert(stats@ =~= Seq::new(i as nat, |j: int| 0u64));
        }
        InteractionConsumer { menu: MenuState::default(), right_down: 0, right_up: 0, stats }
    }

    fn pair(&mut self, event: HookEvent, at_ms: u64)
        ensures
            final(self).menu() == old(self).menu().after(event, at_ms),
            final(self).downs() == later(
                old(self).downs(),
                if right_press(event) { 1nat } else { 0nat },
            ),
            final(self).ups() == later(
                old(self).ups(),
                if right_release(event) { 1nat } else { 0nat },
            ),
            final(self).tally() == old(self).tally(),
    {
        proof {
            lemma_later_adds(self.right_down, 0, 0);
            lemma_later_adds(self.right_up, 0, 0);
        }
        match event {
            HookEvent::Down { button: MouseButton::Right, x, y } => {
                self.right_down = self.right_down.wrapping_add(1);
                self.menu.on_down(x, y, at_ms);
            },
            HookEvent::Up { button: MouseButton::Right, x, y } => {
                self.right_up = self.right_up.wrapping_add(1);
                let _ = self.menu.on_up(x, y, at_ms);
            },
            _ => {},
        }
    }

    /// Empties the queue: counts and pairs the right button, and hands the inputs to
    /// gesture recognition back, stamped from `now_ms` on.
    pub fn drain_collect(&mut self, sink: &mut ChannelSink, now_ms: u64) -> (r: Batch)
        requires
            old(sink).wf(),
        ensures
            final(sink).wf(),
            final(sink).limit() == old(sink).limit(),
            final(sink).connected() == old(sink).connected(),
            final(sink).lost() == old(sink).lost(),
            final(sink).waiting() == Seq::<HookEvent>::empty(),
            r.inputs.len() == gestures(old(sink).waiting()).len(),
            forall|i: int|
                0 <= i < r.inputs.len() ==> #[trigger] r.inputs@[i] == (
                    gestures(old(sink).waiting())[i],
                    later(now_ms, (i + 1) as nat),
                ),
            r.tail_ms == later(now_ms, gestures(old(sink).waiting()).len()),
            final(self).menu() == old(self).menu().after_all(old(sink).waiting(), now_ms),
            final(self).downs() == later(old(self).downs(), presses(old(sink).waiting())),
            final(self).ups() == later(old(self).ups(), releases(old(sink).waiting())),
            final(self).tally() == old(self).tally(),
    {
        let events: Vec<HookEvent> = sink.take_all();
        let mut inputs: Vec<(InputEvent, u64)> = Vec::new();
        let mut tick_ms: u64 = now_ms;
        let mut i: usize = 0;
        assert(events@.take(0) =~= Seq::empty());
        while i < events.len()
            invariant
                i <= events.len(),
                inputs.len() == gestures(events@.take(i as int)).len(),
                forall|j: int|
                    0 <= j < inputs.len() ==> #[trigger] inputs@[j] == (
                        gestures(events@.take(i as int))[j],
                        later(now_ms, (j + 1) as nat),
                    ),
                tick_ms == later(now_ms, gestures(events@.take(i as int)).len()),
                self.menu() == old(self).menu().after_all(events@.take(i as int), now_ms),
                self.downs() == later(old(self).downs(), presses(events@.take(i as int))),
                self.ups() == later(old(self).ups(), releases(events@.take(i as int))),
                self.tally() == old(self).tally(),
            decreases events.len() - i,
        {
            let event = events[i];
            proof {
                assert(events@.take(i + 1).drop_last() =~= events@.take(i as int));
                assert(events@.take(i + 1).last() == event);
                let before = events@.take(i as int);
                lemma_later_adds(now_ms, gestures(before).len(), 1);
                lemma_later_adds(later(now_ms, gestures(before).len()), 0, 0);
                lemma_later_adds(old(self).downs(), presses(before), 0);
                lemma_later_adds(old(self).downs(), presses(before), 1);
                lemma_later_adds(old(self).ups(), releases(before), 0);
                lemma_later_adds(old(self).ups(), releases(before), 1);
            }
            self.pair(event, tick_ms);
            if let Some(input) = to_input(event) {
                tick_ms = tick_ms.wrapping_add(1);
                inputs.push((input, tick_ms));
            }
            i = i + 1;
        }
        assert(events@.take(i as int) =~= events@);
        Batch { inputs, tail_ms: tick_ms }
    }

    /// Takes all right clicks, oldest first.
    pub fn take_menu_clicks(&mut self) -> (r: Vec<RightClickHit>)
        ensures
            r@ == old(self).menu().clicks,
            final(self).menu() == (RightClicks { clicks: Seq::empty(), ..old(self).menu() }),
            final(self).downs() == old(self).downs(),
            final(self).ups() == old(self).ups(),
            final(self).tally() == old(self).tally(),
    {
        self.menu.take_clicks()
    }

    /// Counts an interaction that was recognised.
    pub fn note(&mut self, kind: InteractionKind)
        requires
            old(self).wf(),
        ensures
            final(self).wf(),
            final(self).tally() == old(self).tally().update(
                index_of(kind),
                later(old(self).tally()[index_of(kind)], 1),
            ),
            final(self).menu() == old(self).menu(),
            final(self).downs() == old(self).downs(),
            final(self).ups() == old(self).ups(),
    {
        let at: usize = place_of(kind);
        let count: u64 = self.stats[at].wrapping_add(1);
        self.stats.set(at, count);
    }

    /// Counts all interactions that a batch led to, each kind as often as it is among them.
    pub fn note_all(&mut self, kinds: &[InteractionKind])
        requires
            old(self).wf(),
        ensures
            final(self).wf(),
            forall|kind: InteractionKind|
                (#[trigger] final(self).tally()[index_of(kind)]) == later(
                    old(self).tally()[index_of(kind)],
                    times(kinds@, kind),
                ),
            final(self).menu() == old(self).menu(),
            final(self).downs() == old(self).downs(),
            final(self).ups() == old(self).ups(),
    {
        let mut i: usize = 0;
        proof {
            assert forall|kind: InteractionKind|
                (#[trigger] self.tally()[index_of(kind)]) == later(
                    old(self).tally()[index_of(kind)],
                    times(kinds@.take(0), kind),
                ) by {
                lemma_later_adds(self.tally()[index_of(kind)], 0, 0);
            }
        }
        while i < kinds.len()
            invariant
                i <= kinds.len(),
                self.wf(),
                forall|kind: InteractionKind|
                    (#[trigger] self.tally()[index_of(kind)]) == later(
                        old(self).tally()[index_of(kind)],
                        times(kinds@.take(i as int), kind),
                    ),
                self.menu() == old(self).menu(),
                self.downs() == old(self).downs(),
                self.ups() == old(self).ups(),
            decreases kinds.len() - i,
        {
            let ghost before = self.tally();
            self.note(kinds[i]);
            proof {
                let head = kinds@.take(i + 1);
                assert(head.drop_last() =~= kinds@.take(i as int));
                assert forall|kind: InteractionKind|
                    (#[trigger] self.tally()[index_of(kind)]) == later(
                        old(self).tally()[index_of(kind)],
                        times(head, kind),
                    ) by {
                    let seen = times(kinds@.take(i as int), kind);
                    assert(before[index_of(kind)] == later(
                        old(self).tally()[index_of(kind)],
                        seen,
                    ));
                    lemma_later_adds(old(self).tally()[index_of(kind)], seen, 1);
                    assert(index_of(kind) == index_of(kinds@[i as int]) <==> kind
                        == kinds@[i as int]);
                }
            }
            i = i + 1;
        }
        assert(kinds@.take(i as int) =~= kinds@);
    }

    /// How often this kind of interaction was recognised.
    pub fn kind_count(&self, kind: InteractionKind) -> (r: u64)
        requires
            self.wf(),
        ensures
            r == self.tally()[index_of(kind)],
    {
        self.stats[place_of(kind)]
    }

    /// How often the right button went down.
    pub fn right_down_count(&self) -> (r: u64)
        ensures
            r == self.downs(),
    {
        self.right_down
    }

    /// How often the right button came up.
    pub fn right_up_count(&self) -> (r: u64)
        ensures
            r == self.ups(),
    {
        self.right_up
    }
}

/// The events without those of the right button.
pub open spec fn without_right(events: Seq<HookEvent>) -> Seq<HookEvent> {
    events.filter(|e: HookEvent| !right_press(e) && !right_release(e))
}

/// The right button does not disturb gestures: without its events recognition is fed
/// with the same inputs, and so at the same times.
pub proof fn lemma_right_button_disturbs_nothing(events: Seq<HookEvent>)
    ensures
        gestures(without_right(events)) == gestures(events),
    decreases events.len(),
{
    reveal(Seq::filter);
    if events.len() > 0 {
        let before = events.drop_last();
        lemma_right_button_disturbs_nothing(before);
        let last = events.last();
        if !right_press(last) && !right_release(last) {
            assert(without_right(events).drop_last() =~= without_right(before));
        }
    } else {
        assert(without_right(events) =~= events);
    }
}

/// The button coming up without having gone down leads to nothing, and of several
/// times that it went down only the last counts.
pub proof fn lemma_pairing_is_sound(
    state: RightClicks,
    x: i32,
    y: i32,
    at_ms: u64,
    x2: i32,
    y2: i32,
    at2_ms: u64,
)
    ensures
        state.held is None ==> state.released(x, y, at_ms) == state,
        state.pressed(x, y, at_ms).pressed(x2, y2, at2_ms) == state.pressed(x2, y2, at2_ms),
        state.released(x, y, at_ms).released(x2, y2, at2_ms) == state.released(x, y, at_ms),
{
}

/// Each input comes from one kind of event, at the same place: motion from motion, press and
/// release from the left button alone, and the wheel from the wheel.
pub proof fn lemma_inputs_come_from_their_events(event: HookEvent, x: i32, y: i32, delta: i32)
    ensures
        gesture(event) == Some(InputEvent::Move { x, y }) <==> event == (HookEvent::Move { x, y }),
        gesture(event) == Some(InputEvent::Press { x, y }) <==> event == (HookEvent::Down {
            button: MouseButton::Left,
            x,
            y,
        }),
        gesture(event) == Some(InputEvent::Release { x, y }) <==> event == (HookEvent::Up {
            button: MouseButton::Left,
            x,
            y,
        }),
        gesture(event) == Some(InputEvent::Wheel { delta }) <==> (event matches HookEvent::Wheel {
            delta: turned,
            ..
        } && turned == delta),
        gesture(event) is None <==> {
            ||| (event matches HookEvent::Down { button, .. } && button != MouseButton::Left)
            ||| (event matches HookEvent::Up { button, .. } && button != MouseButton::Left)
        },
{
}

/// Stamps count up one by one and start over behind the largest number.
pub proof fn lemma_stamps_count_up(from: u64, n: nat)
    ensures
        later(from, 0) == from,
        from + n <= u64::MAX ==> later(from, n) == from + n,
        later(from, n + 1) == if later(from, n) == u64::MAX {
            0
        } else {
            (later(from, n) + 1) as u64
        },
{
}

/// A batch is sorted out event by event: what two batches hold, one batch of both holds in that
/// order, and so often does the right button go down and come up.
pub proof fn lemma_batches_add_up(a: Seq<HookEvent>, b: Seq<HookEvent>, event: HookEvent)
    ensures
        gestures(a + b) == gestures(a) + gestures(b),
        presses(a + b) == presses(a) + presses(b),
        releases(a + b) == releases(a) + releases(b),
        gesture(event) matches Some(input) ==> gestures(seq![event]) == seq![input],
        gesture(event) is None ==> gestures(seq![event]).len() == 0,
        presses(seq![event]) == 1 <==> (event matches HookEvent::Down { button, .. } && button
            == MouseButton::Right),
        releases(seq![event]) == 1 <==> (event matches HookEvent::Up { button, .. } && button
            == MouseButton::Right),
        presses(seq![event]) <= 1 && releases(seq![event]) <= 1,
    decreases b.len(),
{
    reveal_with_fuel(gestures, 2);
    reveal_with_fuel(presses, 2);
    reveal_with_fuel(releases, 2);
    assert(seq![event].drop_last() =~= Seq::empty());
    if let Some(input) = gesture(event) {
        assert(gestures(seq![event]) =~= seq![input]);
    }
    if b.len() == 0 {
        assert(a + b =~= a);
        assert(gestures(a) + gestures(b) =~= gestures(a));
    } else {
        assert((a + b).drop_last() =~= a + b.drop_last());
        assert((a + b).last() == b.last());
        lemma_batches_add_up(a, b.drop_last(), event);
        assert(gestures(a + b) =~= gestures(a) + gestures(b));
    }
}

/// The right button coming up makes a click exactly where it went down at most half a second
/// before and at most eight pixels away in either direction; the click is where it came up.
pub proof fn lemma_clicks_are_short_and_still(
    state: RightClicks,
    down: (u64, i32, i32),
    x: i32,
    y: i32,
    at_ms: u64,
)
    requires
        state.held == Some(down),
        down.0 <= at_ms,
    ensures
        ({
            let after = state.released(x, y, at_ms);
            let click = at_ms - down.0 <= 500 && (x - down.1 <= 8 && down.1 - x <= 8) && (y - down.2
                <= 8 && down.2 - y <= 8);
            &&& after.held is None
            &&& click ==> after.clicks == state.clicks.push(RightClickHit { x, y })
            &&& !click ==> after.clicks == state.clicks
        }),
{
}

/// Going down is noted with time and place and makes no click. Events that are not of the right
/// button change nothing about it.
pub proof fn lemma_right_button_alone_counts(
    state: RightClicks,
    event: HookEvent,
    x: i32,
    y: i32,
    at_ms: u64,
)
    ensures
        state.pressed(x, y, at_ms).held == Some((at_ms, x, y)),
        state.pressed(x, y, at_ms).clicks == state.clicks,
        event == (HookEvent::Down { button: MouseButton::Right, x, y }) ==> state.after(
            event,
            at_ms,
        ) == state.pressed(x, y, at_ms),
        event == (HookEvent::Up { button: MouseButton::Right, x, y }) ==> state.after(event, at_ms)
            == state.released(x, y, at_ms),
        presses(seq![event]) == 0 && releases(seq![event]) == 0 ==> state.after(event, at_ms)
            == state,
{
    lemma_batches_add_up(Seq::empty(), Seq::empty(), event);
    reveal_with_fuel(presses, 2);
    reveal_with_fuel(releases, 2);
    assert(seq![event].last() == event);
}

/// Two batches one after the other lead to what one batch of both leads to, where the second
/// starts at the last stamp of the first.
pub proof fn lemma_batches_pair_up(
    state: RightClicks,
    a: Seq<HookEvent>,
    b: Seq<HookEvent>,
    now_ms: u64,
)
    ensures
        state.after_all(a + b, now_ms) == state.after_all(a, now_ms).after_all(
            b,
            later(now_ms, gestures(a).len()),
        ),
        b.len() == 1 ==> state.after_all(b, now_ms) == state.after(b[0], now_ms),
    decreases b.len(),
{
    reveal_with_fuel(RightClicks::after_all, 2);
    reveal_with_fuel(gestures, 1);
    if b.len() == 0 {
        assert(a + b =~= a);
    } else {
        let head = b.drop_last();
        assert((a + b).drop_last() =~= a + head);
        assert((a + b).last() == b.last());
        lemma_batches_pair_up(state, a, head, now_ms);
        lemma_batches_add_up(a, head, b.last());
        lemma_later_adds(now_ms, gestures(a).len(), gestures(head).len());
        if b.len() == 1 {
            assert(gestures(head).len() == 0);
            lemma_later_adds(now_ms, 0, 0);
        }
    }
}

/// Each kind of interaction is counted at a place of its own, and all places are there.
pub proof fn lemma_kinds_are_counted_apart(a: InteractionKind, b: InteractionKind)
    ensures
        0 <= index_of(a) < 9,
        index_of(a) == index_of(b) <==> a == b,
{
}

/// A kind is among two lists as often as among the one and the other together.
pub proof fn lemma_counts_add_up(
    a: Seq<InteractionKind>,
    b: Seq<InteractionKind>,
    kind: InteractionKind,
    other: InteractionKind,
)
    ensures
        times(a + b, kind) == times(a, kind) + times(b, kind),
        times(seq![kind], kind) == 1,
        other != kind ==> times(seq![other], kind) == 0,
    decreases b.len(),
{
    reveal_with_fuel(times, 2);
    assert(seq![kind].drop_last() =~= Seq::empty());
    assert(seq![other].drop_last() =~= Seq::empty());
    if b.len() == 0 {
        assert(a + b =~= a);
    } else {
        assert((a + b).drop_last() =~= a + b.drop_last());
        assert((a + b).last() == b.last());
        lemma_counts_add_up(a, b.drop_last(), kind, other);
    }
}

} // verus!
