//! What the inputs from the settings window and the tray lead to.
//!
//! An input is either ordinary or privileged. Privileged ones end in a restart or in
//! leaving, and are taken out first. Ordinary ones name one step for the engines, with
//! everything that the step needs; what can be decided here is decided here.

use crate::bridge::channel::CoreInput;
use crate::calendar::{local_day_key, local_week_key};
use crate::coreloop::kinds::{ActivityKind, RecallKind};
use crate::coreloop::state::CoreLoopState;
use crate::text;
use vstd::prelude::*;

verus! {

/// How many places for decorations the desktop has.
pub const DECOR_SLOTS: usize = 5;

/// The step that an ordinary input leads to.
#[derive(Debug, PartialEq, Eq)]
pub enum CoreStep {
    /// Settle the mood back to its calm level.
    ForceLower,
    /// Call the runaway pet back.
    CoaxRecall,
    /// Take a stroke from the tray.
    CoaxTrayTap,
    /// Feed, and after that play the actions of a meal.
    Feed,
    /// Bathe, and after that play the actions of a bath.
    Bathe,
    /// Write the save at once, where there is one, and tell the requester in any case.
    Flush { ticket: u64 },
    /// Send the pet out.
    Dispatch { kind: ActivityKind, def_id: String, duration_min: u32 },
    /// There is no such activity.
    UnknownActivity { kind: String },
    /// Call the pet back from an activity.
    Recall,
    /// Buy, on the day and in the week of these keys.
    Buy { item_id: String, qty: u32, day_key: String, week_key: String, at_ms: i64 },
    /// The decoration is placed.
    Placed { slot: usize, item_id: String },
    /// The slot is cleared.
    Cleared { slot: usize },
    /// There is no such slot.
    NoSuchSlot { slot: usize },
    /// The decoration is not owned.
    NotOwned { item_id: String },
    /// There is no save to keep decorations in.
    NoSave,
    /// Privileged inputs are not taken here.
    Ignored,
}

/// The decorations that a save holds, slot by slot.
pub type Decor = Vec<Option<String>>;

/// `decor` with at least [`DECOR_SLOTS`] slots, the new ones empty.
pub open spec fn widened(decor: Seq<Option<String>>) -> Seq<Option<String>> {
    if decor.len() < DECOR_SLOTS {
        decor + Seq::new((DECOR_SLOTS - decor.len()) as nat, |i: int| None::<String>)
    } else {
        decor
    }
}

/// The decorations once one was put into a slot.
pub open spec fn with_decor(decor: Seq<Option<String>>, slot: int, item_id: String) -> Seq<
    Option<String>,
> {
    widened(decor).update(slot, Some(item_id))
}

/// The decorations once a slot was cleared.
pub open spec fn without_decor(decor: Seq<Option<String>>, slot: int) -> Seq<Option<String>> {
    if slot < decor.len() {
        decor.update(slot, None)
    } else {
        decor
    }
}

/// The kind of activity that a word stands for.
pub open spec fn activity_of(word: Seq<char>) -> Option<ActivityKind> {
    if word == "work"@ {
        Some(ActivityKind::Work)
    } else if word == "study"@ {
        Some(ActivityKind::Study)
    } else if word == "travel"@ {
        Some(ActivityKind::Travel)
    } else {
        None
    }
}

/// The kind of activity that a word stands for.
pub fn activity_kind(word: &str) -> (r: Option<ActivityKind>)
    ensures
        r == activity_of(word@),
{
    if text::equal(word, "work") {
        Some(ActivityKind::Work)
    } else if text::equal(word, "study") {
        Some(ActivityKind::Study)
    } else if text::equal(word, "travel") {
        Some(ActivityKind::Travel)
    } else {
        None
    }
}

fn widen(decor: &mut Decor)
    ensures
        final(decor)@ == widened(old(decor)@),
{
    let ghost before = decor@;
    while decor.len() < DECOR_SLOTS
        invariant
            before == old(decor)@,
            before.len() <= decor@.len(),
            decor@.len() <= if before.len() < DECOR_SLOTS {
                DECOR_SLOTS as int
            } else {
                before.len() as int
            },
            decor@.subrange(0, before.len() as int) == before,
            forall|i: int| before.len() <= i < decor@.len() ==> decor@[i] == None::<String>,
        decreases DECOR_SLOTS - decor@.len(),
    {
        let ghost prior = decor@;
        decor.push(None);
        assert(decor@.subrange(0, before.len() as int) =~= prior.subrange(
            0,
            before.len() as int,
        ));
    }
    assert(decor@ =~= widened(before)) by {
        assert forall|i: int| 0 <= i < decor@.len() implies decor@[i] == widened(before)[i] by {
            if i < before.len() {
                assert(decor@[i] == decor@.subrange(0, before.len() as int)[i]);
            }
        }
    }
}

/// What becomes of a decoration that is to be put into a slot.
pub open spec fn placing(slot: usize, item_id: String, owned: u32, saved: bool) -> CoreStep {
    if slot >= DECOR_SLOTS {
        CoreStep::NoSuchSlot { slot }
    } else if owned == 0 {
        CoreStep::NotOwned { item_id }
    } else if !saved {
        CoreStep::NoSave
    } else {
        CoreStep::Placed { slot, item_id }
    }
}

/// What becomes of a slot that is to be cleared.
pub open spec fn clearing(slot: usize, saved: bool) -> CoreStep {
    if slot >= DECOR_SLOTS {
        CoreStep::NoSuchSlot { slot }
    } else if !saved {
        CoreStep::NoSave
    } else {
        CoreStep::Cleared { slot }
    }
}

/// Puts a decoration that is owned into a slot; the other slots stay as they are.
pub fn place_decor(
    decor: &mut Option<Decor>,
    slot: usize,
    item_id: String,
    owned: u32,
) -> (r: CoreStep)
    ensures
        r == placing(slot, item_id, owned, *old(decor) is Some),
        r is Placed ==> {
            &&& *final(decor) is Some
            &&& (*final(decor))->0@ == with_decor((*old(decor))->0@, slot as int, item_id)
        },
        !(r is Placed) ==> *final(decor) == *old(decor),
{
    if slot >= DECOR_SLOTS {
        return CoreStep::NoSuchSlot { slot };
    }
    if owned == 0 {
        return CoreStep::NotOwned { item_id };
    }
    match decor.take() {
        None => CoreStep::NoSave,
        Some(kept) => {
            let mut slots: Decor = kept;
            widen(&mut slots);
            slots.set(slot, Some(item_id.clone()));
            *decor = Some(slots);
            CoreStep::Placed { slot, item_id }
        },
    }
}

/// Clears a slot; the other slots stay as they are.
pub fn remove_decor(decor: &mut Option<Decor>, slot: usize) -> (r: CoreStep)
    ensures
        r == clearing(slot, *old(decor) is Some),
        r is Cleared ==> {
            &&& *final(decor) is Some
            &&& (*final(decor))->0@ == without_decor((*old(decor))->0@, slot as int)
        },
        !(r is Cleared) ==> *final(decor) == *old(decor),
{
    if slot >= DECOR_SLOTS {
        return CoreStep::NoSuchSlot { slot };
    }
    match decor.take() {
        None => CoreStep::NoSave,
        Some(kept) => {
            let mut slots: Decor = kept;
            if slot < slots.len() {
                slots.set(slot, None);
            }
            *decor = Some(slots);
            CoreStep::Cleared { slot }
        },
    }
}

/// Whether an input is privileged.
pub open spec fn privileged(input: CoreInput) -> bool {
    input is ResetAllData || input is ImportSave || input is Shutdown
}

/// What `step` is for `input`, apart from decorations.
pub open spec fn step_for(
    input: CoreInput,
    now_ms: u64,
    offset_ms: i64,
    step: CoreStep,
) -> bool {
    match input {
        CoreInput::ResetEmotion => step is ForceLower,
        CoreInput::RecallRunaway => step is CoaxRecall,
        CoreInput::TrayCoax => step is CoaxTrayTap,
        CoreInput::TrayFeed => step is Feed,
        CoreInput::TrayBath => step is Bathe,
        CoreInput::ResetAllData | CoreInput::ImportSave { .. } | CoreInput::Shutdown => {
            step is Ignored
        },
        CoreInput::FlushSave { ticket } => step == (CoreStep::Flush { ticket }),
        CoreInput::ActivityDispatch { kind, def_id, duration_min } => match activity_of(kind@) {
            Some(known) => step == (CoreStep::Dispatch { kind: known, def_id, duration_min }),
            None => step == (CoreStep::UnknownActivity { kind }),
        },
        CoreInput::ActivityRecall => step is Recall,
        CoreInput::Purchase { item_id, qty } => step matches CoreStep::Buy {
            item_id: i,
            qty: q,
            day_key,
            week_key,
            at_ms,
        } && {
            &&& i == item_id
            &&& q == qty
            &&& at_ms == now_ms as i64
            &&& day_key@ == crate::calendar::day_key(
                crate::calendar::utc_text(
                    crate::calendar::shifted(at_ms, offset_ms),
                    crate::calendar::DAY_PATTERN@,
                ),
            )
            &&& week_key@ == crate::calendar::week_key(
                crate::calendar::utc_iso_week(crate::calendar::shifted(at_ms, offset_ms)),
            )
        },
        CoreInput::DecorPlace { .. } | CoreInput::DecorRemove { .. } => true,
    }
}

impl CoreLoopState {
    /// The step that an ordinary input leads to. Decorations are placed and cleared
    /// here; a change to them asks for the save to be written. `owned` is how many of
    /// the named decoration the user has. `now_ms` is the wall clock, `offset_ms` how far
    /// local clocks are ahead of it.
    pub fn apply_core_input(
        &mut self,
        input: CoreInput,
        decor: &mut Option<Decor>,
        owned: u32,
        now_ms: u64,
        offset_ms: i64,
    ) -> (r: CoreStep)
        ensures
            step_for(input, now_ms, offset_ms, r),
            *final(self) == old(self).to_save(r is Placed || r is Cleared),
            !(r is Placed) && !(r is Cleared) ==> *final(decor) == *old(decor),
            input matches CoreInput::DecorPlace { slot, item_id } ==> {
                &&& r == placing(slot as usize, item_id, owned, *old(decor) is Some)
                &&& r is Placed ==> {
                    &&& *final(decor) is Some
                    &&& (*final(decor))->0@ == with_decor(
                        (*old(decor))->0@,
                        slot as int,
                        item_id,
                    )
                }
            },
            input matches CoreInput::DecorRemove { slot } ==> {
                &&& r == clearing(slot as usize, *old(decor) is Some)
                &&& r is Cleared ==> {
                    &&& *final(decor) is Some
                    &&& (*final(decor))->0@ == without_decor((*old(decor))->0@, slot as int)
                }
            },
    {
        match input {
            CoreInput::ResetEmotion => CoreStep::ForceLower,
            CoreInput::RecallRunaway => CoreStep::CoaxRecall,
            CoreInput::TrayCoax => CoreStep::CoaxTrayTap,
            CoreInput::TrayFeed => CoreStep::Feed,
            CoreInput::TrayBath => CoreStep::Bathe,
            CoreInput::ResetAllData => CoreStep::Ignored,
            CoreInput::ImportSave { file: _ } => CoreStep::Ignored,
            CoreInput::Shutdown => CoreStep::Ignored,
            CoreInput::FlushSave { ticket } => CoreStep::Flush { ticket },
            CoreInput::ActivityDispatch { kind, def_id, duration_min } => {
                match activity_kind(kind.as_str()) {
                    Some(known) => CoreStep::Dispatch { kind: known, def_id, duration_min },
                    None => CoreStep::UnknownActivity { kind },
                }
            },
            CoreInput::ActivityRecall => CoreStep::Recall,
            CoreInput::Purchase { item_id, qty } => {
                let at_ms: i64 = now_ms as i64;
                CoreStep::Buy {
                    item_id,
                    qty,
                    day_key: local_day_key(at_ms, offset_ms),
                    week_key: local_week_key(at_ms, offset_ms),
                    at_ms,
                }
            },
            CoreInput::DecorPlace { slot, item_id } => {
                let r: CoreStep = place_decor(decor, slot as usize, item_id, owned);
                if let CoreStep::Placed { .. } = &r {
                    self.save_requested = true;
                }
                r
            },
            CoreInput::DecorRemove { slot } => {
                let r: CoreStep = remove_decor(decor, slot as usize);
                if let CoreStep::Cleared { .. } = &r {
                    self.save_requested = true;
                }
                r
            },
        }
    }

    /// Notes how a purchase went: a successful one asks for the save to be written.
    pub fn bought(&mut self, ok: bool)
        ensures
            *final(self) == old(self).to_save(ok),
    {
        if ok {
            self.save_requested = true;
        }
    }

    /// The state after a recall was accepted, or was not.
    pub open spec fn recalled_if(self, ok: bool) -> CoreLoopState {
        if ok {
            self.called_back()
        } else {
            self
        }
    }

    /// Notes how a recall went: an accepted one will be settled as an early return and
    /// asks for the save to be written.
    pub fn recalled(&mut self, ok: bool)
        ensures
            *final(self) == old(self).recalled_if(ok),
    {
        if ok {
            self.pending_recall = Some(RecallKind::Early);
            self.save_requested = true;
        }
    }
}

/// What a privileged input asks for.
#[derive(Debug, PartialEq, Eq)]
pub enum AdminStep {
    /// The input is ordinary.
    NotAdmin,
    /// Rebuild the save from scratch.
    Reset,
    /// Replace the save by this backup.
    Import { file: String },
    /// The backup cannot be imported, in words.
    Refused { reason: String },
    /// Write the save, where there is one, and leave in any case.
    Leave { flush: bool },
    /// There is no save, or no place to look for backups: nothing to do.
    Nothing,
}

/// How the application goes on.
#[derive(Clone, Copy, Debug, PartialEq, Eq, Structural)]
pub enum Exit {
    Stay,
    Restart,
    Quit,
}

/// What `step` is for `input`.
pub open spec fn admin_for(
    input: CoreInput,
    has_save: bool,
    has_save_dir: bool,
    present: bool,
    step: AdminStep,
) -> bool {
    &&& step is NotAdmin <==> !privileged(input)
    &&& input is ResetAllData ==> step == if has_save {
        AdminStep::Reset
    } else {
        AdminStep::Nothing
    }
    &&& input is Shutdown ==> step == (AdminStep::Leave { flush: has_save })
    &&& input matches CoreInput::ImportSave { file } ==> {
        let refusal = crate::bridge::backup::import_refusal(file@, present);
        if !has_save_dir {
            step == AdminStep::Nothing
        } else if refusal is Some {
            step matches AdminStep::Refused { reason } && refusal == Some(reason@)
        } else if !has_save {
            step == AdminStep::Nothing
        } else {
            step matches AdminStep::Import { file: name } && name@ == file@
        }
    }
}

/// What a privileged input asks for. `present` says whether the named backup is there
/// as a file.
pub fn handle_admin_input(
    input: &CoreInput,
    has_save: bool,
    has_save_dir: bool,
    present: bool,
) -> (r: AdminStep)
    ensures
        admin_for(*input, has_save, has_save_dir, present, r),
{
    match input {
        CoreInput::ResetAllData => {
            if has_save {
                AdminStep::Reset
            } else {
                AdminStep::Nothing
            }
        },
        CoreInput::ImportSave { file } => {
            if !has_save_dir {
                return AdminStep::Nothing;
            }
            match crate::bridge::backup::resolve_backup_path(file.as_str(), present) {
                Err(reason) => AdminStep::Refused { reason },
                Ok(name) => {
                    if has_save {
                        AdminStep::Import { file: name }
                    } else {
                        AdminStep::Nothing
                    }
                },
            }
        },
        CoreInput::Shutdown => AdminStep::Leave { flush: has_save },
        CoreInput::ResetEmotion
        | CoreInput::RecallRunaway
        | CoreInput::TrayCoax
        | CoreInput::TrayFeed
        | CoreInput::TrayBath
        | CoreInput::FlushSave { .. }
        | CoreInput::ActivityDispatch { .. }
        | CoreInput::ActivityRecall
        | CoreInput::Purchase { .. }
        | CoreInput::DecorPlace { .. }
        | CoreInput::DecorRemove { .. } => AdminStep::NotAdmin,
    }
}

/// How the application goes on after a privileged step.
pub open spec fn exit_after(step: AdminStep, ok: bool) -> Exit {
    match step {
        AdminStep::Reset | AdminStep::Import { .. } => if ok {
            Exit::Restart
        } else {
            Exit::Stay
        },
        AdminStep::Leave { .. } => Exit::Quit,
        AdminStep::NotAdmin | AdminStep::Refused { .. } | AdminStep::Nothing => Exit::Stay,
    }
}

/// How the application goes on after a privileged step: a rebuilt or replaced save
/// takes a restart, a failure stays, and leaving leaves whatever became of the save.
pub fn after_admin(step: &AdminStep, ok: bool) -> (r: Exit)
    ensures
        r == exit_after(*step, ok),
{
    match step {
        AdminStep::Reset | AdminStep::Import { .. } => {
            if ok {
                Exit::Restart
            } else {
                Exit::Stay
            }
        },
        AdminStep::Leave { .. } => Exit::Quit,
        AdminStep::NotAdmin | AdminStep::Refused { .. } | AdminStep::Nothing => Exit::Stay,
    }
}

/// Clearing a slot undoes placing a decoration in it: every slot is as it was before,
/// the cleared one empty.
pub proof fn lemma_clear_undoes_place(decor: Seq<Option<String>>, slot: int, item_id: String)
    requires
        0 <= slot < DECOR_SLOTS,
    ensures
        widened(decor).update(slot, Some(item_id)).update(slot, None) == widened(decor).update(
            slot,
            None,
        ),
        widened(decor).update(slot, Some(item_id))[slot] == Some(item_id),
        widened(decor).len() >= DECOR_SLOTS,
        widened(widened(decor)) == widened(decor),
{
    assert(widened(decor).update(slot, Some(item_id)).update(slot, None) =~= widened(
        decor,
    ).update(slot, None));
}

/// A decoration that is placed stands in its slot, and every other slot keeps what it held; the
/// desktop then has five slots at least, the new ones empty. A cleared slot is empty, the others
/// keep what they held, and no slot is added.
pub proof fn lemma_slots_are_changed_one_by_one(
    decor: Seq<Option<String>>,
    slot: int,
    item_id: String,
    other: int,
)
    requires
        0 <= slot < 5,
    ensures
        ({
            let placed = with_decor(decor, slot, item_id);
            let cleared = without_decor(decor, slot);
            &&& placed.len() == if decor.len() < 5 { 5 } else { decor.len() }
            &&& placed[slot] == Some(item_id)
            &&& 0 <= other < decor.len() && other != slot ==> placed[other] == decor[other]
                && cleared[other] == decor[other]
            &&& decor.len() <= other < placed.len() && other != slot ==> placed[other] is None
            &&& cleared.len() == decor.len()
            &&& slot < decor.len() ==> cleared[slot] is None
        }),
{
}

/// Three words name activities, each its own; every other word names none.
pub proof fn lemma_activity_words(word: Seq<char>)
    ensures
        activity_of(word) == Some(ActivityKind::Work) <==> word == "work"@,
        activity_of(word) == Some(ActivityKind::Study) <==> word == "study"@,
        activity_of(word) == Some(ActivityKind::Travel) <==> word == "travel"@,
{
    reveal_strlit("work");
    reveal_strlit("study");
    reveal_strlit("travel");
    assert("work"@.len() == 4 && "study"@.len() == 5 && "travel"@.len() == 6);
}

/// Every step has its input: where the mood is calmed, the pet called, stroked, fed or bathed,
/// the save written, the pet sent out or called back, or something bought, exactly the input for
/// it was given, and what the input named is what the step names. Privileged inputs lead to no
/// step. Decorations are apart from this.
pub proof fn lemma_steps_come_from_their_inputs(
    input: CoreInput,
    now_ms: u64,
    offset_ms: i64,
    step: CoreStep,
)
    requires
        step_for(input, now_ms, offset_ms, step),
        !(input is DecorPlace) && !(input is DecorRemove),
    ensures
        step is ForceLower <==> input is ResetEmotion,
        step is CoaxRecall <==> input is RecallRunaway,
        step is CoaxTrayTap <==> input is TrayCoax,
        step is Feed <==> input is TrayFeed,
        step is Bathe <==> input is TrayBath,
        step is Flush <==> input is FlushSave,
        step is Dispatch || step is UnknownActivity <==> input is ActivityDispatch,
        step is Recall <==> input is ActivityRecall,
        step is Buy <==> input is Purchase,
        step is Ignored <==> input is ResetAllData || input is ImportSave || input is Shutdown,
        !(step is Placed) && !(step is Cleared) && !(step is NoSave),
        input matches CoreInput::FlushSave { ticket } ==> (
        step matches CoreStep::Flush { ticket: told } && told == ticket),
        input matches CoreInput::ActivityDispatch { kind, def_id, duration_min } ==> {
            &&& step matches CoreStep::Dispatch { kind: known, def_id: id, duration_min: span } ==> {
                &&& id == def_id
                &&& span == duration_min
                &&& activity_of(kind@) == Some(known)
            }
            &&& step is UnknownActivity <==> activity_of(kind@) is None
            &&& step matches CoreStep::UnknownActivity { kind: word } ==> word == kind
        },
        input matches CoreInput::Purchase { item_id, qty } ==> (step matches CoreStep::Buy {
            item_id: bought,
            qty: count,
            at_ms,
            ..
        } && bought == item_id && count == qty && (now_ms <= i64::MAX ==> at_ms == now_ms)),
{
}

/// A purchase counts on the day and in the week that local clocks show: two purchases that
/// local clocks show alike have the same keys, wherever they are made.
pub proof fn lemma_purchases_count_by_local_clocks(
    input: CoreInput,
    a: u64,
    b: u64,
    offset_a: i64,
    offset_b: i64,
    one: CoreStep,
    two: CoreStep,
)
    requires
        input is Purchase,
        step_for(input, a, offset_a, one),
        step_for(input, b, offset_b, two),
        a <= i64::MAX,
        b <= i64::MAX,
        a + offset_a == b + offset_b,
    ensures
        one matches CoreStep::Buy { day_key: d1, week_key: w1, .. } && two matches CoreStep::Buy {
            day_key: d2,
            week_key: w2,
            ..
        } && d1@ == d2@ && w1@ == w2@,
{
    crate::calendar::lemma_local_clock_decides(a as i64, b as i64, offset_a, offset_b);
}

/// Privileged inputs are the three that end in a restart or in leaving, and what they ask for is
/// done only where it can be: the save is rebuilt or replaced only where there is one, and
/// replaced only by a backup that is not refused, looked for only where there is a place. Leaving
/// always leaves, and writes the save where there is one. Every other input is left alone.
pub proof fn lemma_privileged_inputs_do_what_they_can(
    input: CoreInput,
    has_save: bool,
    has_save_dir: bool,
    present: bool,
    step: AdminStep,
    ok: bool,
)
    requires
        admin_for(input, has_save, has_save_dir, present, step),
    ensures
        step is NotAdmin <==> !(input is ResetAllData || input is ImportSave || input is Shutdown),
        step is Reset <==> input is ResetAllData && has_save,
        step is Leave <==> input is Shutdown,
        step matches AdminStep::Leave { flush } ==> flush == has_save,
        step is Import ==> has_save && has_save_dir,
        input matches CoreInput::ImportSave { file } ==> {
            let refusal = crate::bridge::backup::import_refusal(file@, present);
            &&& step is Import <==> has_save && has_save_dir && refusal is None
            &&& step is Refused <==> has_save_dir && refusal is Some
            &&& step matches AdminStep::Import { file: name } ==> name@ == file@
            &&& step matches AdminStep::Refused { reason } ==> refusal == Some(reason@)
        },
        step is Refused || step is Import ==> input is ImportSave,
        exit_after(step, ok) == Exit::Quit <==> step is Leave,
        exit_after(step, ok) == Exit::Restart <==> ok && (step is Reset || step is Import),
{
}

/// A decoration is placed exactly where one of five slots is named, one of it is owned and there
/// is a save to hold it; a slot is cleared without anything being owned. A slot that is not there
/// is told first, and what is not owned before what is not saved.
pub proof fn lemma_decor_needs_slot_thing_and_save(
    slot: usize,
    item_id: String,
    owned: u32,
    saved: bool,
)
    ensures
        placing(slot, item_id, owned, saved) == (CoreStep::Placed { slot, item_id }) <==> slot < 5
            && owned >= 1 && saved,
        placing(slot, item_id, owned, saved) == (CoreStep::NoSuchSlot { slot }) <==> slot >= 5,
        placing(slot, item_id, owned, saved) == (CoreStep::NotOwned { item_id }) <==> slot < 5
            && owned == 0,
        placing(slot, item_id, owned, saved) == CoreStep::NoSave <==> slot < 5 && owned >= 1
            && !saved,
        clearing(slot, saved) == (CoreStep::Cleared { slot }) <==> slot < 5 && saved,
        clearing(slot, saved) == (CoreStep::NoSuchSlot { slot }) <==> slot >= 5,
        clearing(slot, saved) == CoreStep::NoSave <==> slot < 5 && !saved,
{
}

/// A recall that was not accepted changes nothing; an accepted one makes the next return an
/// early one and has the save written, and leaves the rest alone.
pub proof fn lemma_recalls_count_where_accepted(state: CoreLoopState)
    ensures
        state.recalled_if(false) == state,
        state.recalled_if(true).recall_kind() == RecallKind::Early,
        state.recalled_if(true).save_requested,
        state == (CoreLoopState {
            pending_recall: state.pending_recall,
            save_requested: state.save_requested,
            ..state.recalled_if(true)
        }),
{
}

/// Only rebuilding the save, importing one and quitting are privileged.
pub proof fn lemma_three_inputs_are_privileged(input: CoreInput, file: String)
    ensures
        privileged(CoreInput::ResetAllData),
        privileged(CoreInput::ImportSave { file }),
        privileged(CoreInput::Shutdown),
        input is ResetEmotion || input is RecallRunaway || input is TrayCoax || input is TrayFeed
            || input is TrayBath || input is FlushSave || input is ActivityDispatch
            || input is ActivityRecall || input is Purchase || input is DecorPlace
            || input is DecorRemove <==> !privileged(input),
{
}

} // verus!
