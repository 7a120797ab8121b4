//! The core loop: when its tiers are due, what its inputs and events lead to, and
//! how the pet moves between roaming, falling and being dragged.

pub mod activity;
pub mod business;
pub mod effects;
pub mod inputs;
pub mod kinds;
pub mod rounds;
pub mod schedule;
pub mod seed;
pub mod state;
pub mod switches;

pub use effects::{audio_cue_for_emotion, audio_cue_for_intent, fx_burst_for_intent, LogicOutcome};
pub use kinds::{
    Arbitration, AudioCue, CoaxStep, DragBounds, EmotionEvent, InteractionKind, Point,
    TrayIconState,
};
pub use schedule::{advance_deadline, ScheduleGrid, TiersFired};
pub use seed::advance_seed;
pub use state::{CoreLoopState, Phase};
