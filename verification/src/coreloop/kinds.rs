//! What the engines around the core loop report and are asked for, as plain values.

use crate::scalar::Scalar;
use vstd::prelude::*;

verus! {

/// What a gesture of the user means.
#[derive(Clone, Copy, Debug, PartialEq, Eq, Structural)]
pub enum InteractionKind {
    Hover,
    Click,
    DoubleClick,
    Stroke,
    Tickle,
    EarTwitch,
    DragStart,
    Throw,
    /// Any other meaning; it leads to nothing here.
    Other,
}

/// The sounds that the core loop asks for.
#[derive(Clone, Copy, Debug, PartialEq, Eq, Structural)]
pub enum AudioCue {
    InteractHehe,
    InteractHeart,
    InteractHeartbeat,
    InteractYaa,
    InteractHmph,
    MoveWind,
    MoveLand,
    EmotionSigh,
    EmotionSob,
    EmotionAnger,
    EmotionStepsFade,
    EmotionCheer,
    EmotionHum,
}

/// How far an apology has come.
#[derive(Clone, Copy, Debug, PartialEq, Eq, Structural)]
pub enum CoaxStep {
    /// The pet waits for the heart.
    Heart,
    /// The pet is leaving.
    Runaway,
    /// The pet has left.
    Away,
    /// Any other step.
    Other,
}

/// What the mood reports.
#[derive(Clone, Debug, PartialEq, Eq)]
pub enum EmotionEvent {
    /// The pet has become more or less cross.
    ColdLevelChanged { from: u8, to: u8 },
    /// An apology has gone one step on.
    CoaxProgress { step: CoaxStep },
    /// An apology was accepted.
    CoaxSucceeded,
    /// An apology was refused.
    CoaxFailed,
    /// The mood demands an action.
    ForceAction { action_id: String, priority: u32 },
    /// The pet notices that the user lingers; `pool` holds what it says.
    SlackLinger { pool: String },
    /// The save should be written at once.
    PersistNow,
    /// Values changed without anything to announce.
    ValuesChanged,
}

/// What the arbiter makes of a requested action.
#[derive(Clone, Copy, Debug, PartialEq, Eq, Structural)]
pub enum Arbitration {
    /// It plays at once.
    Play,
    /// It plays at once in place of another.
    Interrupt,
    /// It waits at this place of the queue, from one.
    Queued { pos: usize },
    /// It gives way to what plays.
    Suppressed,
    /// There is no room for it.
    Dropped,
}

/// Who asks for an action.
#[derive(Clone, Copy, Debug, PartialEq, Eq, Structural)]
pub enum ActionSource {
    Motion,
    Interaction,
    Emotion,
    Ambient,
    Activity,
}

/// What an action is known to the arbiter as.
#[derive(Clone, Debug, PartialEq, Eq)]
pub struct CurrentAction {
    pub id: String,
    /// Plays until it is stopped.
    pub looping: bool,
}

/// How the tray icon shows the pet.
#[derive(Clone, Copy, Debug, PartialEq, Eq, Structural)]
pub enum TrayIconState {
    Normal,
    LeftHome,
    NotInteractive,
}

/// A place on the desktop.
#[derive(Clone, Copy, Debug, PartialEq, Eq, Structural)]
pub struct Point {
    pub x: Scalar,
    pub y: Scalar,
}

impl Point {
    /// Both coordinates are finite.
    pub open spec fn finite(self) -> bool {
        self.x.finite() && self.y.finite()
    }

    /// Both coordinates agree as numbers.
    pub open spec fn equals(self, other: Point) -> bool {
        self.x.equals(other.x) && self.y.equals(other.y)
    }

    /// Both coordinates agree as numbers.
    pub fn same(self, other: Point) -> (r: bool)
        ensures
            r == self.equals(other),
    {
        self.x.same(other.x) && self.y.same(other.y)
    }
}

/// The part of the desktop in which the pet can be dragged.
#[derive(Clone, Copy, Debug, PartialEq, Eq, Structural)]
pub struct DragBounds {
    pub left: Scalar,
    pub right: Scalar,
    pub top: Scalar,
    pub bottom: Scalar,
}

impl DragBounds {
    /// The bounds enclose something.
    pub open spec fn wf(self) -> bool {
        &&& !self.left.nan()
        &&& !self.right.nan()
        &&& !self.top.nan()
        &&& !self.bottom.nan()
        &&& self.left.key() <= self.right.key()
        &&& self.top.key() <= self.bottom.key()
    }

    /// `p` lies inside, edges included.
    pub open spec fn encloses(self, p: Point) -> bool {
        &&& !p.x.nan()
        &&& !p.y.nan()
        &&& self.left.key() <= p.x.key() <= self.right.key()
        &&& self.top.key() <= p.y.key() <= self.bottom.key()
    }

    /// The place nearest to `p` inside.
    pub open spec fn nearest(self, p: Point) -> Point {
        Point { x: p.x.clamped(self.left, self.right), y: p.y.clamped(self.top, self.bottom) }
    }
}

/// Where the pet can be sent.
#[derive(Clone, Copy, Debug, PartialEq, Eq, Structural)]
pub enum ActivityKind {
    Work,
    Study,
    Travel,
}

/// How far an activity has come.
#[derive(Clone, Copy, Debug, PartialEq, Eq, Structural)]
pub enum ActivityPhase {
    Idle,
    Preparing,
    Running,
    Returning,
    Settled,
}

/// Why the pet comes back.
#[derive(Clone, Copy, Debug, PartialEq, Eq, Structural)]
pub enum RecallKind {
    /// The time was up.
    Normal,
    /// The user called it back.
    Early,
}

/// The place nearest to a place inside is that place; outside, each coordinate goes to the edge
/// that it lies beyond, without regard to the other.
pub proof fn lemma_nearest_place(bounds: DragBounds, p: Point)
    requires
        bounds.wf(),
        !p.x.nan(),
        !p.y.nan(),
    ensures
        bounds.encloses(bounds.nearest(p)),
        bounds.encloses(p) ==> bounds.nearest(p) == p,
        p.x.below(bounds.left) ==> bounds.nearest(p).x == bounds.left,
        bounds.right.below(p.x) ==> bounds.nearest(p).x == bounds.right,
        p.y.below(bounds.top) ==> bounds.nearest(p).y == bounds.top,
        bounds.bottom.below(p.y) ==> bounds.nearest(p).y == bounds.bottom,
        !p.x.below(bounds.left) && !bounds.right.below(p.x) ==> bounds.nearest(p).x == p.x,
        !p.y.below(bounds.top) && !bounds.bottom.below(p.y) ==> bounds.nearest(p).y == p.y,
{
}

/// Two places are the same exactly where neither coordinate of one lies below the other's.
pub proof fn lemma_same_places(a: Point, b: Point)
    requires
        !a.x.nan(),
        !a.y.nan(),
        !b.x.nan(),
        !b.y.nan(),
    ensures
        a.equals(b) <==> !a.x.below(b.x) && !b.x.below(a.x) && !a.y.below(b.y) && !b.y.below(a.y),
        a.finite() <==> a.x.finite() && a.y.finite(),
{
}

} // verus!
