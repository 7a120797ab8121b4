//! Activities away from home: which actions accompany them, when they go on, how a
//! reward is booked.

use crate::calendar::local_day_key;
use crate::coreloop::kinds::{ActivityKind, ActivityPhase, CurrentAction, RecallKind};
use crate::coreloop::state::CoreLoopState;
use crate::scalar::Scalar;
use crate::text;
use vstd::prelude::*;

verus! {

/// The action of a tired pet.
pub const TIRED_ACTION_ID: &'static str = "ACT-N-16";

/// The bit pattern of twenty.
pub const TWENTY_BITS: u32 = 0x41a0_0000;

/// The bit pattern of forty.
pub const FORTY_BITS: u32 = 0x4220_0000;

/// The bit pattern of seven tenths.
pub const REDUCED_BITS: u32 = 0x3f33_3333;

/// The moments of an activity that an action accompanies.
#[derive(Clone, Copy, Debug, PartialEq, Eq, Structural)]
pub enum ActivitySlot {
    Depart,
    Return,
    DeskLoop,
    Postcard,
}

/// The actions of an activity; an empty name stands for none.
#[derive(Clone, Debug, PartialEq, Eq)]
pub struct ActivityActions {
    pub depart: String,
    pub arrive: String,
    pub desk_loop: String,
    pub postcard: String,
}

impl ActivityActions {
    /// The action for a moment.
    pub open spec fn action(self, slot: ActivitySlot) -> String {
        match slot {
            ActivitySlot::Depart => self.depart,
            ActivitySlot::Return => self.arrive,
            ActivitySlot::DeskLoop => self.desk_loop,
            ActivitySlot::Postcard => self.postcard,
        }
    }
}

/// The action for a moment of the activity that is on.
pub fn activity_play_id(actions: &Option<ActivityActions>, slot: ActivitySlot) -> (r: Option<
    String,
>)
    ensures
        r == match *actions {
            Some(a) => Some(a.action(slot)),
            None => None,
        },
{
    match actions {
        None => None,
        Some(a) => Some(
            match slot {
                ActivitySlot::Depart => a.depart.clone(),
                ActivitySlot::Return => a.arrive.clone(),
                ActivitySlot::DeskLoop => a.desk_loop.clone(),
                ActivitySlot::Postcard => a.postcard.clone(),
            },
        ),
    }
}

/// Whether the action for a moment plays now.
pub open spec fn plays(
    actions: Option<ActivityActions>,
    slot: ActivitySlot,
    current: Option<CurrentAction>,
) -> bool {
    actions matches Some(a) && a.action(slot)@.len() > 0 && crate::coreloop::effects::is_current(
        current,
        a.action(slot)@,
    )
}

/// Whether the action for a moment plays now.
pub fn activity_play_active(
    actions: &Option<ActivityActions>,
    slot: ActivitySlot,
    current: &Option<CurrentAction>,
) -> (r: bool)
    ensures
        r == plays(*actions, slot, *current),
{
    match activity_play_id(actions, slot) {
        None => false,
        Some(id) => {
            if id.as_str().is_empty() {
                false
            } else {
                crate::coreloop::effects::current_is(current, id.as_str())
            }
        },
    }
}

/// The action of studying, where it has to be asked for.
pub open spec fn study_request(
    actions: Option<ActivityActions>,
    known_to_arbiter: bool,
) -> Option<String> {
    match actions {
        Some(a) => if a.desk_loop@.len() > 0 && !known_to_arbiter {
            Some(a.desk_loop)
        } else {
            None
        },
        None => None,
    }
}

/// The action of studying, where it has to be asked for: there is one, and it neither
/// plays nor waits.
pub fn submit_study_loop(actions: &Option<ActivityActions>, known_to_arbiter: bool) -> (r: Option<
    String,
>)
    ensures
        r == study_request(*actions, known_to_arbiter),
{
    match activity_play_id(actions, ActivitySlot::DeskLoop) {
        None => None,
        Some(id) => {
            if id.as_str().is_empty() || known_to_arbiter {
                None
            } else {
                Some(id)
            }
        },
    }
}

/// Whether studying has to be stopped: only where its action is the current one.
pub fn stop_study_loop(
    actions: &Option<ActivityActions>,
    current: &Option<CurrentAction>,
) -> (r: bool)
    ensures
        r == plays(*actions, ActivitySlot::DeskLoop, *current),
{
    activity_play_active(actions, ActivitySlot::DeskLoop, current)
}

/// What the runtime of activities reports.
#[derive(Clone, Copy, Debug, PartialEq, Eq, Structural)]
pub enum ActivityReport {
    /// A postcard has come.
    PostcardDue,
    /// The time is up.
    TimeUp { kind: ActivityKind },
    /// The clock went back; what was earned so far is paid out.
    Aborted,
    /// Anything else.
    Other,
}

/// One step that a report leads to.
#[derive(Clone, Copy, Debug, PartialEq, Eq, Structural)]
pub enum ActivityStep {
    /// Play the action of a moment.
    Play { slot: ActivitySlot },
    /// Stop studying.
    StopStudy,
    /// Pay out the reward that came with the report.
    PayOut,
}

/// A report after which the save is to be written.
pub open spec fn worth_keeping(report: ActivityReport) -> bool {
    report != ActivityReport::Other
}

/// There is something to pay.
pub open spec fn earned(coin: i64) -> bool {
    coin > 0
}

impl Credit {
    /// The payment for an activity that ended at `now_ms`, booked on the local day.
    pub open spec fn pays(self, kind: ActivityKind, now_ms: i64, offset_ms: i64) -> bool {
        &&& self.activity_id@ == kind_name(kind)
        &&& self.ref_id@ == reference(kind, now_ms)
        &&& self.day_key@ == crate::calendar::day_key(
            crate::calendar::utc_text(
                crate::calendar::shifted(now_ms, offset_ms),
                crate::calendar::DAY_PATTERN@,
            ),
        )
    }
}

/// The steps that a report leads to.
pub open spec fn steps_of(report: ActivityReport) -> Seq<ActivityStep> {
    match report {
        ActivityReport::PostcardDue => seq![ActivityStep::Play { slot: ActivitySlot::Postcard }],
        ActivityReport::TimeUp { kind } => if kind == ActivityKind::Study {
            seq![ActivityStep::StopStudy, ActivityStep::Play { slot: ActivitySlot::Return }]
        } else {
            seq![ActivityStep::Play { slot: ActivitySlot::Return }]
        },
        ActivityReport::Aborted => seq![ActivityStep::PayOut],
        ActivityReport::Other => Seq::empty(),
    }
}

/// What goes on with the actions around an activity.
#[derive(Clone, Copy, Debug, PartialEq, Eq, Structural)]
pub enum Performance {
    /// Nothing.
    Idle,
    /// An action still plays.
    Hold,
    /// The pet has set out.
    Departed,
    /// The pet is back; settle the activity.
    Settle,
}

/// What goes on with the actions around an activity.
pub open spec fn performance(
    phase: ActivityPhase,
    actions: Option<ActivityActions>,
    current: Option<CurrentAction>,
) -> Performance {
    match phase {
        ActivityPhase::Preparing => if plays(actions, ActivitySlot::Depart, current) {
            Performance::Hold
        } else {
            Performance::Departed
        },
        ActivityPhase::Returning => if plays(actions, ActivitySlot::Return, current) {
            Performance::Hold
        } else {
            Performance::Settle
        },
        _ => Performance::Idle,
    }
}

/// What goes on with the actions around an activity: it waits for the action of
/// setting out, and for the one of coming back, and goes on as soon as they do not
/// play, so that a missing action holds up nothing.
pub fn step_activity_performance(
    phase: ActivityPhase,
    actions: &Option<ActivityActions>,
    current: &Option<CurrentAction>,
) -> (r: Performance)
    ensures
        r == performance(phase, *actions, *current),
{
    match phase {
        ActivityPhase::Preparing => {
            if activity_play_active(actions, ActivitySlot::Depart, current) {
                Performance::Hold
            } else {
                Performance::Departed
            }
        },
        ActivityPhase::Returning => {
            if activity_play_active(actions, ActivitySlot::Return, current) {
                Performance::Hold
            } else {
                Performance::Settle
            }
        },
        ActivityPhase::Idle | ActivityPhase::Running | ActivityPhase::Settled => Performance::Idle,
    }
}

/// An activity without actions of its own never waits.
pub proof fn lemma_missing_actions_hold_up_nothing(current: Option<CurrentAction>)
    ensures
        !plays(None, ActivitySlot::Depart, current),
        !plays(None, ActivitySlot::Return, current),
        forall|a: ActivityActions, slot: ActivitySlot|
            #![trigger plays(Some(a), slot, current)]
            a.action(slot)@.len() == 0 ==> !plays(Some(a), slot, current),
        forall|actions: Option<ActivityActions>, slot: ActivitySlot|
            !#[trigger] plays(actions, slot, None),
{
}

/// The desk is shown.
pub open spec fn at_the_desk(phase: ActivityPhase, kind: Option<ActivityKind>) -> bool {
    phase == ActivityPhase::Running && kind == Some(ActivityKind::Study)
}

/// Whether the desk is shown: while studying is on.
pub fn study_loop_due(phase: ActivityPhase, kind: Option<ActivityKind>) -> (r: bool)
    ensures
        r == at_the_desk(phase, kind),
{
    match (phase, kind) {
        (ActivityPhase::Running, Some(ActivityKind::Study)) => true,
        _ => false,
    }
}

/// The share of an activity's pay that the pet brings home.
pub open spec fn pay_share(satiety: Scalar) -> Scalar {
    if satiety.below(Scalar { bits: TWENTY_BITS }) {
        Scalar { bits: REDUCED_BITS }
    } else {
        Scalar { bits: crate::scalar::ONE_BITS }
    }
}

/// The share of an activity's pay that a hungry pet brings home: below twenty it is
/// reduced.
pub fn economy_scale(satiety: Scalar) -> (r: Scalar)
    ensures
        r == pay_share(satiety),
{
    if satiety.less(Scalar { bits: TWENTY_BITS }) {
        Scalar { bits: REDUCED_BITS }
    } else {
        Scalar::one()
    }
}

/// A pet that comes home pants.
pub open spec fn tired(energy: Scalar) -> bool {
    energy.below(Scalar { bits: FORTY_BITS })
}

/// Whether a pet that comes home pants: its energy is below forty.
pub fn comes_home_tired(energy: Scalar) -> (r: bool)
    ensures
        r == tired(energy),
{
    energy.less(Scalar { bits: FORTY_BITS })
}

/// A payment for an activity.
#[derive(Clone, Debug, PartialEq, Eq)]
pub struct Credit {
    pub activity_id: String,
    /// Under this reference the payment is booked once.
    pub ref_id: String,
    pub day_key: String,
}

/// The name of a kind of activity.
pub open spec fn kind_name(kind: ActivityKind) -> Seq<char> {
    match kind {
        ActivityKind::Work => "Work"@,
        ActivityKind::Study => "Study"@,
        ActivityKind::Travel => "Travel"@,
    }
}

fn kind_label(kind: ActivityKind) -> (r: &'static str)
    ensures
        r@ == kind_name(kind),
{
    match kind {
        ActivityKind::Work => "Work",
        ActivityKind::Study => "Study",
        ActivityKind::Travel => "Travel",
    }
}

/// The reference under which a payment is booked.
pub open spec fn reference(kind: ActivityKind, now_ms: i64) -> Seq<char> {
    "work:"@ + kind_name(kind) + ":"@ + crate::text::integer(now_ms as int)
}

impl CoreLoopState {
    /// Why the pet comes back: the user called it, or the time was up.
    pub open spec fn recall_kind(self) -> RecallKind {
        match self.pending_recall {
            Some(kind) => kind,
            None => RecallKind::Normal,
        }
    }

    /// The state once the user has called the pet back.
    pub open spec fn called_back(self) -> CoreLoopState {
        CoreLoopState {
            pending_recall: Some(RecallKind::Early),
            save_requested: true,
            ..self
        }
    }

    /// The state once a call is taken.
    pub open spec fn recall_taken(self) -> CoreLoopState {
        CoreLoopState { pending_recall: None, ..self }
    }

    /// The steps that a report leads to; every report that leads to something asks for
    /// the save to be written.
    pub fn activity_steps(&mut self, report: ActivityReport) -> (r: Vec<ActivityStep>)
        ensures
            r@ == steps_of(report),
            *final(self) == old(self).to_save(worth_keeping(report)),
    {
        let mut r: Vec<ActivityStep> = Vec::new();
        match report {
            ActivityReport::PostcardDue => {
                r.push(ActivityStep::Play { slot: ActivitySlot::Postcard });
                self.save_requested = true;
            },
            ActivityReport::TimeUp { kind } => {
                if let ActivityKind::Study = kind {
                    r.push(ActivityStep::StopStudy);
                }
                r.push(ActivityStep::Play { slot: ActivitySlot::Return });
                self.save_requested = true;
            },
            ActivityReport::Aborted => {
                r.push(ActivityStep::PayOut);
                self.save_requested = true;
            },
            ActivityReport::Other => {},
        }
        r
    }

    /// Why the pet comes back: the user called it, or the time was up. The call is
    /// taken, so that it counts for one return.
    pub fn take_recall_kind(&mut self) -> (r: RecallKind)
        ensures
            r == old(self).recall_kind(),
            *final(self) == old(self).recall_taken(),
    {
        match self.pending_recall.take() {
            Some(kind) => kind,
            None => RecallKind::Normal,
        }
    }

    /// The payment for an activity: one where there is something to pay, which asks for
    /// the save to be written. It is booked on the local day.
    pub fn credit_for(
        &mut self,
        coin: i64,
        kind: ActivityKind,
        now_ms: i64,
        offset_ms: i64,
    ) -> (r: Option<Credit>)
        ensures
            r is Some <==> earned(coin),
            r matches Some(credit) ==> credit.pays(kind, now_ms, offset_ms),
            *final(self) == old(self).to_save(earned(coin)),
    {
        if coin <= 0 {
            return None;
        }
        let mut ref_id: String = text::joined("work:", kind_label(kind));
        ref_id.append(":");
        ref_id.append(text::integer_text(now_ms).as_str());
        self.save_requested = true;
        Some(
            Credit {
                activity_id: kind_label(kind).to_owned(),
                ref_id,
                day_key: local_day_key(now_ms, offset_ms),
            },
        )
    }
}

/// A call back counts for one return: the next one, which is early. The one after that is
/// an ordinary return again.
pub proof fn lemma_recall_counts_once(state: CoreLoopState)
    ensures
        state.called_back().recall_kind() == RecallKind::Early,
        state.called_back().recall_taken().recall_kind() == RecallKind::Normal,
        state.called_back().called_back() == state.called_back(),
{
}

/// Payments for one kind of activity at different moments have different references.
pub proof fn lemma_references_differ(kind: ActivityKind, a: i64, b: i64)
    requires
        0 <= a,
        0 <= b,
        a != b,
    ensures
        reference(kind, a) != reference(kind, b),
{
    let head = "work:"@ + kind_name(kind) + ":"@;
    let (x, y) = (crate::text::decimal(a as nat), crate::text::decimal(b as nat));
    crate::text::lemma_decimal_differs(a as nat, b as nat);
    if head + x == head + y {
        assert(x =~= (head + x).subrange(head.len() as int, (head + x).len() as int));
        assert(y =~= (head + y).subrange(head.len() as int, (head + y).len() as int));
    }
}

/// What stands before the first colon of a text.
pub open spec fn hour_text(s: Seq<char>) -> Seq<char>
    decreases s.len(),
{
    if s.len() == 0 || s[0] == ':' {
        Seq::empty()
    } else {
        seq![s[0]] + hour_text(s.subrange(1, s.len() as int))
    }
}

/// Whether all of `s` are decimal digits.
pub open spec fn digits(s: Seq<char>) -> bool {
    forall|i: int| 0 <= i < s.len() ==> '0' as int <= #[trigger] s[i] as int <= '9' as int
}

/// The number that decimal digits stand for.
pub open spec fn value(s: Seq<char>) -> nat
    decreases s.len(),
{
    if s.len() == 0 {
        0
    } else {
        value(s.drop_last()) * 10 + (s.last() as int - '0' as int) as nat
    }
}

/// The byte that a text stands for: digits, with an optional plus sign, up to 255.
pub open spec fn byte_of(s: Seq<char>) -> Option<u8> {
    let body = if s.len() > 0 && s[0] == '+' {
        s.subrange(1, s.len() as int)
    } else {
        s
    };
    if body.len() > 0 && digits(body) && value(body) <= 255 {
        Some(value(body) as u8)
    } else {
        None
    }
}

proof fn lemma_value_grows(s: Seq<char>, n: int)
    requires
        0 <= n <= s.len(),
        digits(s),
    ensures
        value(s.subrange(0, n)) <= value(s),
    decreases s.len() - n,
{
    if n < s.len() {
        lemma_value_grows(s, n + 1);
        let longer = s.subrange(0, n + 1);
        assert(longer.drop_last() =~= s.subrange(0, n));
        assert('0' as int <= s[n] as int);
    } else {
        assert(s.subrange(0, n) =~= s);
    }
}

fn parse_byte(s: &Vec<char>) -> (r: Option<u8>)
    ensures
        r == byte_of(s@),
{
    let start: usize = if s.len() > 0 && s[0] == '+' {
        1
    } else {
        0
    };
    let ghost body = s@.subrange(start as int, s@.len() as int);
    assert(start == 0 ==> body =~= s@);
    if s.len() == start {
        return None;
    }
    let mut n: u16 = 0;
    let mut i: usize = start;
    assert(body.subrange(0, 0) =~= Seq::empty());
    while i < s.len()
        invariant
            start <= i <= s@.len(),
            body == s@.subrange(start as int, s@.len() as int),
            byte_of(s@) == if body.len() > 0 && digits(body) && value(body) <= 255 {
                Some(value(body) as u8)
            } else {
                None::<u8>
            },
            digits(body.subrange(0, i - start)),
            n == value(body.subrange(0, i - start)),
            n <= 255,
        decreases s@.len() - i,
    {
        let code: u32 = text::code(s[i]);
        let ghost k = i - start;
        let ghost longer = body.subrange(0, k + 1);
        assert(longer.drop_last() =~= body.subrange(0, k));
        assert(longer.last() == body[k] && body[k] == s@[i as int]);
        if code < 48 || code > 57 {
            assert(!digits(body));
            return None;
        }
        n = n * 10 + (code - 48) as u16;
        assert(digits(longer)) by {
            assert forall|j: int| 0 <= j < longer.len() implies '0' as int
                <= #[trigger] longer[j] as int <= '9' as int by {
                if j < k {
                    assert(body.subrange(0, k)[j] == longer[j]);
                }
            }
        }
        if n > 255 {
            proof {
                if digits(body) {
                    lemma_value_grows(body, k + 1);
                }
            }
            return None;
        }
        i = i + 1;
    }
    assert(body.subrange(0, body.len() as int) =~= body);
    Some(n as u8)
}

/// The hour of a time of the form `HH:MM`; zero where it cannot be read.
pub open spec fn hour_in(hhmm: Seq<char>) -> u8 {
    match byte_of(hour_text(hhmm)) {
        Some(hour) => hour,
        None => 0,
    }
}

/// The hour of a time of the form `HH:MM`; zero where it cannot be read.
pub fn hour_of_hhmm(hhmm: &str) -> (r: u8)
    ensures
        r == hour_in(hhmm@),
{
    let all: Vec<char> = text::chars_of(hhmm);
    let mut head: Vec<char> = Vec::new();
    let mut i: usize = 0;
    assert(all@.subrange(0, all@.len() as int) =~= all@);
    assert(head@ + hour_text(all@) =~= hour_text(all@));
    while i < all.len() && all[i] != ':'
        invariant
            i <= all@.len(),
            all@ == hhmm@,
            head@ + hour_text(all@.subrange(i as int, all@.len() as int)) == hour_text(hhmm@),
        decreases all@.len() - i,
    {
        let ghost rest = all@.subrange(i as int, all@.len() as int);
        let ghost before = head@;
        assert(rest.subrange(1, rest.len() as int) =~= all@.subrange(i + 1, all@.len() as int));
        head.push(all[i]);
        assert(head@ + hour_text(all@.subrange(i + 1, all@.len() as int)) =~= before + hour_text(
            rest,
        ));
        i = i + 1;
    }
    assert(head@ + Seq::<char>::empty() =~= head@);
    match parse_byte(&head) {
        Some(h) => h,
        None => 0,
    }
}

/// What is looked at before the pet is sent out.
#[derive(Clone, Copy, Debug, PartialEq, Eq, Structural)]
pub struct DispatchCheck {
    /// It is out already.
    pub active: bool,
    pub neglect_level: u32,
    pub energy: Scalar,
    pub satiety: Scalar,
    pub cleanliness: Scalar,
    /// How many jobs it has done today.
    pub today_job_count: u32,
    pub local_hour: u8,
    /// The quiet hours, from this one on.
    pub quiet_from_hour: u8,
    /// The quiet hours, up to this one.
    pub quiet_to_hour: u8,
    pub daily_job_limit: u32,
}

/// The pet's condition, as far as sending it out depends on it.
#[derive(Clone, Copy, Debug, PartialEq, Eq, Structural)]
pub struct Condition {
    pub neglect_level: u8,
    pub energy: Scalar,
    pub satiety: Scalar,
    pub cleanliness: Scalar,
}

/// What is looked at before the pet is sent out.
pub open spec fn checked(
    active: bool,
    pet: Condition,
    local_hour: u8,
    quiet_from: Seq<char>,
    quiet_to: Seq<char>,
    daily_job_limit: u32,
) -> DispatchCheck {
    DispatchCheck {
        active,
        neglect_level: pet.neglect_level as u32,
        energy: pet.energy,
        satiety: pet.satiety,
        cleanliness: pet.cleanliness,
        today_job_count: 0,
        local_hour,
        quiet_from_hour: hour_in(quiet_from),
        quiet_to_hour: hour_in(quiet_to),
        daily_job_limit,
    }
}

/// What is looked at before the pet is sent out. Jobs of the day are not counted yet.
pub fn dispatch_check(
    active: bool,
    pet: Condition,
    local_hour: u8,
    quiet_from: &str,
    quiet_to: &str,
    daily_job_limit: u32,
) -> (r: DispatchCheck)
    ensures
        r == checked(active, pet, local_hour, quiet_from@, quiet_to@, daily_job_limit),
{
    DispatchCheck {
        active,
        neglect_level: pet.neglect_level as u32,
        energy: pet.energy,
        satiety: pet.satiety,
        cleanliness: pet.cleanliness,
        today_job_count: 0,
        local_hour,
        quiet_from_hour: hour_of_hhmm(quiet_from),
        quiet_to_hour: hour_of_hhmm(quiet_to),
        daily_job_limit,
    }
}

/// Whatever the activity, the pet acts out coming home once its time is up: that is the last
/// step, and no other moment is played. Studying is stopped before that, exactly where the pet
/// studied. A postcard is shown as one, what was broken off is paid out, and nothing else
/// leads to anything.
pub proof fn lemma_steps_of_reports(report: ActivityReport)
    ensures
        ({
            let steps = steps_of(report);
            let plays = |slot: ActivitySlot| steps.contains(ActivityStep::Play { slot });
            &&& report matches ActivityReport::TimeUp { kind } ==> {
                &&& steps.len() > 0
                &&& steps.last() == (ActivityStep::Play { slot: ActivitySlot::Return })
                &&& forall|i: int|
                    0 <= i < steps.len() - 1 ==> (#[trigger] steps[i]) == ActivityStep::StopStudy
                &&& steps.len() == if kind == ActivityKind::Study { 2int } else { 1 }
            }
            &&& !(report is TimeUp) ==> steps.len() <= 1
            &&& plays(ActivitySlot::Return) <==> report is TimeUp
            &&& plays(ActivitySlot::Postcard) <==> report is PostcardDue
            &&& !plays(ActivitySlot::Depart) && !plays(ActivitySlot::DeskLoop)
            &&& steps.contains(ActivityStep::StopStudy) <==> report
                == (ActivityReport::TimeUp { kind: ActivityKind::Study })
            &&& steps.contains(ActivityStep::PayOut) <==> report is Aborted
            &&& steps.len() == 0 <==> report is Other
        }),
{
    let steps = steps_of(report);
    if steps.len() > 0 {
        assert(steps[0] == steps[0]);
        assert(steps.contains(steps[0]));
        assert(steps.contains(steps.last()));
    }
}

/// Each moment has an action of its own, and is on exactly while that action plays and has a
/// name.
pub proof fn lemma_moments_have_their_actions(
    a: ActivityActions,
    slot: ActivitySlot,
    action: CurrentAction,
)
    ensures
        a.action(ActivitySlot::Depart) == a.depart,
        a.action(ActivitySlot::Return) == a.arrive,
        a.action(ActivitySlot::DeskLoop) == a.desk_loop,
        a.action(ActivitySlot::Postcard) == a.postcard,
        plays(Some(a), slot, Some(action)) <==> a.action(slot)@ == action.id@
            && action.id@.len() > 0,
        !plays(Some(a), slot, None),
        !plays(None, slot, Some(action)),
{
}

/// Only setting out and coming back are waited for, each for its own action: while that plays
/// the activity holds, and once it does not, the pet has set out, or is back and settles.
pub proof fn lemma_activity_waits_for_its_action(
    phase: ActivityPhase,
    a: ActivityActions,
    action: CurrentAction,
)
    ensures
        ({
            let now = performance(phase, Some(a), Some(action));
            let named = action.id@.len() > 0;
            &&& now == Performance::Idle <==> phase != ActivityPhase::Preparing && phase
                != ActivityPhase::Returning
            &&& phase == ActivityPhase::Preparing ==> (now == Performance::Hold <==> named
                && action.id@ == a.depart@)
            &&& phase == ActivityPhase::Returning ==> (now == Performance::Hold <==> named
                && action.id@ == a.arrive@)
            &&& now == Performance::Departed ==> phase == ActivityPhase::Preparing
            &&& now == Performance::Settle ==> phase == ActivityPhase::Returning
            &&& performance(ActivityPhase::Preparing, Some(a), None) == Performance::Departed
            &&& performance(ActivityPhase::Returning, Some(a), None) == Performance::Settle
            &&& performance(ActivityPhase::Preparing, None, Some(action)) == Performance::Departed
            &&& performance(ActivityPhase::Returning, None, Some(action)) == Performance::Settle
        }),
{
}

/// The desk is shown while the pet studies away from home, and at no other time; its action is
/// asked for once, and only where it has a name.
pub proof fn lemma_desk_is_for_studying(
    phase: ActivityPhase,
    kind: Option<ActivityKind>,
    a: ActivityActions,
    known: bool,
)
    ensures
        at_the_desk(phase, kind) ==> phase == ActivityPhase::Running,
        at_the_desk(phase, kind) ==> kind == Some(ActivityKind::Study),
        at_the_desk(ActivityPhase::Running, Some(ActivityKind::Study)),
        study_request(Some(a), true) is None,
        study_request(None, known) is None,
        a.desk_loop@.len() == 0 ==> study_request(Some(a), known) is None,
        a.desk_loop@.len() > 0 ==> study_request(Some(a), false) == Some(a.desk_loop),
{
}

/// A pet with a satiety below twenty brings home seven tenths of its pay, any other the whole.
/// Less energy than forty makes it pant. What is no number counts as enough.
pub proof fn lemma_hunger_costs_pay(value: Scalar)
    ensures
        ({
            let (seven_tenths, one) = (0x3f33_3333u32, 0x3f80_0000u32);
            let (twenty, forty) = (0x41a0_0000int, 0x4220_0000int);
            &&& pay_share(value).bits == seven_tenths <==> !value.nan() && value.key() < twenty
            &&& pay_share(value).bits == one <==> value.nan() || value.key() >= twenty
            &&& tired(value) <==> !value.nan() && value.key() < forty
        }),
{
}

/// A payment is booked under the name of its activity and its moment: two payments share a
/// reference only where both are the same.
pub proof fn lemma_references_name_activity_and_moment(
    a: ActivityKind,
    b: ActivityKind,
    s: i64,
    t: i64,
)
    requires
        0 <= s,
        0 <= t,
    ensures
        kind_name(a) == kind_name(b) ==> a == b,
        reference(a, s).len() == 6 + kind_name(a).len() + crate::text::decimal(s as nat).len(),
        reference(a, s).take(5) == "work:"@,
        reference(a, s).skip(5).take(kind_name(a).len() as int) == kind_name(a),
        reference(a, s).skip(6 + kind_name(a).len() as int) == crate::text::decimal(s as nat),
        kind_name(ActivityKind::Work) == "Work"@,
        kind_name(ActivityKind::Study) == "Study"@,
        kind_name(ActivityKind::Travel) == "Travel"@,
        s != t ==> reference(a, s) != reference(a, t),
{
    reveal_strlit("Work");
    reveal_strlit("Study");
    reveal_strlit("Travel");
    reveal_strlit("work:");
    reveal_strlit(":");
    assert("Work"@.len() == 4 && "Study"@.len() == 5 && "Travel"@.len() == 6);
    let r = reference(a, s);
    assert(r.take(5) =~= "work:"@);
    assert(r.skip(5).take(kind_name(a).len() as int) =~= kind_name(a));
    assert(r.skip(6 + kind_name(a).len() as int) =~= crate::text::decimal(s as nat));
    if s != t {
        lemma_references_differ(a, s, t);
    }
}

/// What is looked at before the pet is sent out is what it was asked about: each value in its
/// own place, the hours read out of their texts, and no job counted.
pub proof fn lemma_check_looks_at_the_pet(
    active: bool,
    pet: Condition,
    local_hour: u8,
    from: Seq<char>,
    to: Seq<char>,
    limit: u32,
)
    ensures
        ({
            let check = checked(active, pet, local_hour, from, to, limit);
            &&& check.active == active
            &&& check.neglect_level == pet.neglect_level
            &&& check.energy == pet.energy
            &&& check.satiety == pet.satiety
            &&& check.cleanliness == pet.cleanliness
            &&& check.local_hour == local_hour
            &&& check.quiet_from_hour == hour_in(from)
            &&& check.quiet_to_hour == hour_in(to)
            &&& check.daily_job_limit == limit
            &&& check.today_job_count == 0
        }),
{
}

/// The hour of a time is the number before its colon, whatever follows it.
pub proof fn lemma_hour_stands_before_the_colon(tens: char, units: char, rest: Seq<char>)
    requires
        '0' as int <= tens as int <= '9' as int,
        '0' as int <= units as int <= '9' as int,
    ensures
        hour_in(seq![tens, units, ':'] + rest) == 10 * (tens as int - '0' as int) + (units as int
            - '0' as int),
        hour_in(seq![units, ':'] + rest) == units as int - '0' as int,
        hour_in(seq![units]) == units as int - '0' as int,
        hour_in(seq![':'] + rest) == 0,
{
    reveal_with_fuel(hour_text, 4);
    reveal_with_fuel(value, 4);
    let two = seq![tens, units, ':'] + rest;
    let body = seq![tens, units];
    let t1 = two.subrange(1, two.len() as int);
    let t2 = t1.subrange(1, t1.len() as int);
    assert(two[0] == tens && t1[0] == units && t2[0] == ':');
    assert(hour_text(t2) =~= Seq::empty());
    assert(hour_text(two) =~= body);
    assert(body.drop_last() =~= seq![tens]);
    assert(seq![tens].drop_last() =~= Seq::empty());
    let one = seq![units, ':'] + rest;
    let u1 = one.subrange(1, one.len() as int);
    assert(one[0] == units && u1[0] == ':');
    assert(hour_text(one) =~= seq![units]);
    assert(seq![units].drop_last() =~= Seq::empty());
    let lone = seq![units];
    assert(lone.subrange(1, 1) =~= Seq::empty());
    assert(hour_text(lone) =~= seq![units]);
    let none = seq![':'] + rest;
    assert(none[0] == ':');
    assert(hour_text(none) =~= Seq::empty());
}

/// The save is written after a report exactly where the report leads to something.
pub proof fn lemma_reports_with_steps_are_kept(report: ActivityReport)
    ensures
        worth_keeping(report) <==> steps_of(report).len() > 0,
{
}

/// Only what is above nothing is paid, to the activity that earned it: two payments for one
/// activity at one moment say the same, and payments for different activities do not.
pub proof fn lemma_payments_name_what_earned_them(
    a: Credit,
    b: Credit,
    kind: ActivityKind,
    other: ActivityKind,
    now_ms: i64,
    offset_ms: i64,
    coin: i64,
)
    requires
        a.pays(kind, now_ms, offset_ms),
        b.pays(other, now_ms, offset_ms),
    ensures
        earned(coin) <==> coin >= 1,
        a.activity_id@ == b.activity_id@ <==> kind == other,
        a.day_key@ == b.day_key@,
        kind == other ==> a.ref_id@ == b.ref_id@,
        a.activity_id@ == "Work"@ <==> kind == ActivityKind::Work,
        a.activity_id@ == "Study"@ <==> kind == ActivityKind::Study,
        a.activity_id@ == "Travel"@ <==> kind == ActivityKind::Travel,
{
    reveal_strlit("Work");
    reveal_strlit("Study");
    reveal_strlit("Travel");
    assert("Work"@.len() == 4 && "Study"@.len() == 5 && "Travel"@.len() == 6);
}

proof fn lemma_hour_text_is_the_head(head: Seq<char>, rest: Seq<char>)
    requires
        !head.contains(':'),
    ensures
        hour_text(head + seq![':'] + rest) == head,
        hour_text(head) == head,
    decreases head.len(),
{
    let all = head + seq![':'] + rest;
    if head.len() == 0 {
        assert(all[0] == ':');
        assert(hour_text(all) =~= head);
        assert(hour_text(head) =~= head);
    } else {
        let tail = head.subrange(1, head.len() as int);
        assert(!tail.contains(':')) by {
            if tail.contains(':') {
                let i = choose|i: int| 0 <= i < tail.len() && tail[i] == ':';
                assert(head[i + 1] == ':');
            }
        }
        lemma_hour_text_is_the_head(tail, rest);
        assert(head.contains(head[0]));
        assert(all[0] == head[0]);
        assert(all.subrange(1, all.len() as int) =~= tail + seq![':'] + rest);
        assert(hour_text(all) =~= head);
        assert(hour_text(head) =~= head);
    }
}

proof fn lemma_value_is_the_number(s: Seq<char>)
    requires
        digits(s),
    ensures
        value(s) == text::number(s),
    decreases s.len(),
{
    if s.len() > 0 {
        assert('0' as int <= s[s.len() - 1] as int);
        assert(digits(s.drop_last())) by {
            assert forall|i: int| 0 <= i < s.drop_last().len() implies '0' as int
                <= #[trigger] s.drop_last()[i] as int <= '9' as int by {
                assert(s.drop_last()[i] == s[i]);
            }
        }
        lemma_value_is_the_number(s.drop_last());
    }
}

/// The hour is the number that stands in decimal digits before the first colon, up to 255. A
/// larger number reads as zero, and so does anything in which a character is no digit.
pub proof fn lemma_hours_are_read_in_decimal(n: nat, head: Seq<char>, rest: Seq<char>)
    ensures
        hour_in(text::decimal(n) + seq![':'] + rest) == if n <= 255 {
            n
        } else {
            0
        },
        !head.contains(':') && !head.contains('+') && (exists|i: int|
            0 <= i < head.len() && !('0' as int <= #[trigger] head[i] as int <= '9' as int))
            ==> hour_in(head + seq![':'] + rest) == 0,
        hour_in(seq!['+'] + text::decimal(n) + seq![':'] + rest) == hour_in(
            text::decimal(n) + seq![':'] + rest,
        ),
{
    let d = text::decimal(n);
    text::lemma_digits_stand_for_the_number(n);
    assert forall|i: int| 0 <= i < d.len() implies '0' as int <= #[trigger] d[i] as int <= '9'
        as int by {
        assert('0' <= d[i] <= '9');
    }
    lemma_value_is_the_number(d);
    assert(!d.contains(':') && !d.contains('+')) by {
        if d.contains(':') {
            let i = choose|i: int| 0 <= i < d.len() && d[i] == ':';
            assert('0' as int <= d[i] as int <= '9' as int);
        }
        if d.contains('+') {
            let i = choose|i: int| 0 <= i < d.len() && d[i] == '+';
            assert('0' as int <= d[i] as int <= '9' as int);
        }
    }
    assert(d.contains(d[0]));
    lemma_hour_text_is_the_head(d, rest);
    let signed = seq!['+'] + d;
    assert(signed + seq![':'] + rest =~= seq!['+'] + d + seq![':'] + rest);
    assert(!signed.contains(':')) by {
        if signed.contains(':') {
            let i = choose|i: int| 0 <= i < signed.len() && signed[i] == ':';
            assert(d[i - 1] == ':');
            assert(d.contains(':'));
        }
    }
    lemma_hour_text_is_the_head(signed, rest);
    assert(signed.subrange(1, signed.len() as int) =~= d);
    if !head.contains(':') && !head.contains('+') && (exists|i: int|
        0 <= i < head.len() && !('0' as int <= #[trigger] head[i] as int <= '9' as int)) {
        lemma_hour_text_is_the_head(head, rest);
        if head.len() > 0 {
            assert(head.contains(head[0]));
        }
        assert(!digits(head));
    }
}

/// A byte needs a digit: neither nothing nor a sign alone is one.
pub proof fn lemma_bytes_need_a_digit()
    ensures
        byte_of(Seq::empty()) is None,
        byte_of(seq!['+']) is None,
        byte_of(seq!['-', '1']) is None,
{
    assert(seq!['+'].subrange(1, 1) =~= Seq::empty());
    assert(seq!['-', '1'][0] == '-');
}

} // verus!
