//! The tray: what its menu looks like, what its tooltip says and what its entries do.

use crate::coreloop::kinds::TrayIconState;
use crate::text;
use vstd::prelude::*;

verus! {

/// What the pet is called as long as it has no name.
pub const DEFAULT_PET_NAME: &'static str = "宠物";

/// What stands in a text in place of the name.
pub const NAME_TEMPLATE: &'static str = "{name}";

/// Whether the pet window stays above others.
#[derive(Clone, Copy, Debug, PartialEq, Eq, Structural)]
pub enum TopmostMode {
    Always,
    Never,
    /// Above all but full-screen windows.
    BelowFullscreen,
}

/// The entries of the tray menu.
#[derive(Clone, Copy, Debug, PartialEq, Eq, Structural)]
pub enum TrayAction {
    Coax,
    Feed,
    Bath,
    ShowHide,
    ToggleTopmost,
    ToggleClickThrough,
    Settings,
    About,
    Quit,
    Recall,
}

/// What the switch in the tray sets next: it knows only on and off.
pub open spec fn toggled(cur: TopmostMode) -> TopmostMode {
    if cur == TopmostMode::Always {
        TopmostMode::Never
    } else {
        TopmostMode::Always
    }
}

/// What the switch in the tray sets next: it knows only on and off.
pub fn next_topmost(cur: TopmostMode) -> (r: TopmostMode)
    ensures
        r == toggled(cur),
{
    match cur {
        TopmostMode::Always => TopmostMode::Never,
        TopmostMode::Never | TopmostMode::BelowFullscreen => TopmostMode::Always,
    }
}

/// Switching twice gives back what was set, where that was on or off.
pub proof fn lemma_toggle_twice(cur: TopmostMode)
    requires
        cur != TopmostMode::BelowFullscreen,
    ensures
        toggled(toggled(cur)) == cur,
{
}

/// The name, or what stands in its place where there is none.
pub open spec fn called(pet_name: Seq<char>) -> Seq<char> {
    if pet_name.len() == 0 {
        NAME_TEMPLATE@
    } else {
        pet_name
    }
}

/// What the tooltip says.
pub open spec fn tooltip(state: TrayIconState, pet_name: Seq<char>) -> Seq<char> {
    match state {
        TrayIconState::Normal => called(pet_name),
        TrayIconState::LeftHome => called(pet_name) + " 离开了"@,
        TrayIconState::NotInteractive => called(pet_name) + "（不可交互）"@,
    }
}

/// What the tooltip says: the name, and after it where the pet cannot be reached why.
pub fn tooltip_for(state: TrayIconState, pet_name: &str) -> (r: String)
    ensures
        r@ == tooltip(state, pet_name@),
{
    let base: &str = if pet_name.unicode_len() == 0 {
        NAME_TEMPLATE
    } else {
        pet_name
    };
    match state {
        TrayIconState::Normal => base.to_owned(),
        TrayIconState::LeftHome => text::joined(base, " 离开了"),
        TrayIconState::NotInteractive => text::joined(base, "（不可交互）"),
    }
}

/// The group of the menu in which an entry stands.
pub open spec fn group(action: TrayAction) -> u8 {
    match action {
        TrayAction::Coax | TrayAction::Feed | TrayAction::Bath => 0,
        TrayAction::Quit => 2,
        TrayAction::Recall => 3,
        _ => 1,
    }
}

/// The group of the menu in which an entry stands.
pub fn menu_group(action: TrayAction) -> (r: u8)
    ensures
        r == group(action),
{
    match action {
        TrayAction::Coax | TrayAction::Feed | TrayAction::Bath => 0,
        TrayAction::Quit => 2,
        TrayAction::Recall => 3,
        _ => 1,
    }
}

/// A line of the menu.
#[derive(Clone, Copy, Debug, PartialEq, Eq, Structural)]
pub enum MenuLine {
    Separator,
    /// The entry at this place of the list that the menu was built from.
    Entry { at: usize },
}

/// The lines of the menu for the first entries: a separator wherever the group changes.
pub open spec fn lines_for(entries: Seq<TrayAction>) -> Seq<MenuLine>
    decreases entries.len(),
{
    if entries.len() == 0 {
        Seq::empty()
    } else {
        let before = lines_for(entries.drop_last());
        let entry = MenuLine::Entry { at: (entries.len() - 1) as usize };
        if entries.len() > 1 && group(entries[entries.len() - 2]) != group(entries.last()) {
            before.push(MenuLine::Separator).push(entry)
        } else {
            before.push(entry)
        }
    }
}

/// The lines of the menu: a separator wherever the group changes.
pub fn build_menu(entries: &[TrayAction]) -> (r: Vec<MenuLine>)
    ensures
        r@ == lines_for(entries@),
{
    let mut lines: Vec<MenuLine> = Vec::new();
    let mut i: usize = 0;
    assert(entries@.take(0) =~= Seq::empty());
    while i < entries.len()
        invariant
            i <= entries.len(),
            lines@ == lines_for(entries@.take(i as int)),
        decreases entries.len() - i,
    {
        proof {
            assert(entries@.take(i + 1).drop_last() =~= entries@.take(i as int));
        }
        if i > 0 && menu_group(entries[i - 1]) != menu_group(entries[i]) {
            lines.push(MenuLine::Separator);
        }
        lines.push(MenuLine::Entry { at: i });
        i = i + 1;
    }
    assert(entries@.take(i as int) =~= entries@);
    lines
}

/// A menu that holds something neither starts nor ends with a separator, and nowhere do
/// two of them follow each other.
pub proof fn lemma_separators_stand_between(entries: Seq<TrayAction>)
    requires
        entries.len() <= usize::MAX,
    ensures
        entries.len() > 0 ==> lines_for(entries).len() > 0 && lines_for(entries)[0]
            !is Separator && lines_for(entries).last() !is Separator,
        forall|i: int|
            0 <= i < lines_for(entries).len() - 1 ==> !(lines_for(entries)[i] is Separator
                && #[trigger] lines_for(entries)[i + 1] is Separator),
    decreases entries.len(),
{
    if entries.len() > 0 {
        lemma_separators_stand_between(entries.drop_last());
        let before = lines_for(entries.drop_last());
        let lines = lines_for(entries);
        if entries.len() > 1 {
            assert(before.len() > 0);
            assert(lines[0] == before[0]);
        }
        assert forall|i: int| 0 <= i < lines.len() - 1 implies !(lines[i] is Separator
            && #[trigger] lines[i + 1] is Separator) by {
            if i + 1 < before.len() {
                assert(lines[i] == before[i] && lines[i + 1] == before[i + 1]);
            }
        }
    }
}

/// What an entry of the tray menu asks for.
#[derive(Clone, Copy, Debug, PartialEq, Eq, Structural)]
pub enum TrayStep {
    /// Let the window stay above others, or not.
    SetTopmost { mode: TopmostMode },
    /// Let clicks pass through the window, or not.
    SetClickThrough { on: bool },
    /// Show or hide the window.
    SetVisible { visible: bool },
    /// Take the mouse hook off and quit.
    Quit,
    /// Hand the pet's recall to the core loop.
    Recall,
    /// Only tell of it.
    Announce,
}

/// What the tray remembers of the window.
#[derive(Clone, Copy, Debug, PartialEq, Eq, Structural)]
pub struct TrayMirror {
    pub visible: bool,
    pub topmost_on: bool,
}

impl Default for TrayMirror {
    /// The window starts visible and above others.
    fn default() -> (r: Self)
        ensures
            r == (TrayMirror { visible: true, topmost_on: true }),
    {
        TrayMirror { visible: true, topmost_on: true }
    }
}

impl TrayMirror {
    /// Whether the window stays above others.
    pub open spec fn topmost(self) -> TopmostMode {
        if self.topmost_on {
            TopmostMode::Always
        } else {
            TopmostMode::Never
        }
    }

    /// The mirror after the window was to be shown or hidden.
    pub open spec fn shown(self, visible: bool, done: bool) -> TrayMirror {
        if done {
            TrayMirror { visible, ..self }
        } else {
            self
        }
    }

    /// The mirror after an entry was chosen.
    pub open spec fn acted(self, action: TrayAction) -> TrayMirror {
        if action == TrayAction::ToggleTopmost {
            TrayMirror { topmost_on: !self.topmost_on, ..self }
        } else {
            self
        }
    }

    /// What an entry asks for.
    pub open spec fn step(self, action: TrayAction, click_through: bool) -> TrayStep {
        match action {
            TrayAction::ToggleTopmost => TrayStep::SetTopmost { mode: toggled(self.topmost()) },
            TrayAction::ToggleClickThrough => TrayStep::SetClickThrough { on: !click_through },
            TrayAction::ShowHide => TrayStep::SetVisible { visible: !self.visible },
            TrayAction::Quit => TrayStep::Quit,
            TrayAction::Recall => TrayStep::Recall,
            _ => TrayStep::Announce,
        }
    }

    /// Whether the window stays above others.
    pub fn current_topmost(&self) -> (r: TopmostMode)
        ensures
            r == self.topmost(),
    {
        if self.topmost_on {
            TopmostMode::Always
        } else {
            TopmostMode::Never
        }
    }

    /// Remembers whether the window stays above others.
    pub fn note_topmost(&mut self, on: bool)
        ensures
            *final(self) == (TrayMirror { topmost_on: on, ..*old(self) }),
    {
        self.topmost_on = on;
    }

    /// Remembers whether the window is shown; where it could not be set nothing changes.
    pub fn set_pet_visible(&mut self, visible: bool, done: bool)
        ensures
            *final(self) == old(self).shown(visible, done),
    {
        if done {
            self.visible = visible;
        }
    }

    /// What the entry asks for; the switch for staying above others is remembered at once.
    pub fn apply_action(&mut self, action: TrayAction, click_through: bool) -> (r: TrayStep)
        ensures
            *final(self) == old(self).acted(action),
            r == old(self).step(action, click_through),
    {
        match action {
            TrayAction::ToggleTopmost => {
                let next = next_topmost(self.current_topmost());
                self.topmost_on = next == TopmostMode::Always;
                TrayStep::SetTopmost { mode: next }
            },
            TrayAction::ToggleClickThrough => TrayStep::SetClickThrough { on: !click_through },
            TrayAction::ShowHide => TrayStep::SetVisible { visible: !self.visible },
            TrayAction::Quit => TrayStep::Quit,
            TrayAction::Recall => TrayStep::Recall,
            _ => TrayStep::Announce,
        }
    }
}

/// The switch sets always exactly where that was not set, and never otherwise.
pub proof fn lemma_switch_knows_on_and_off(cur: TopmostMode)
    ensures
        toggled(cur) == TopmostMode::Always <==> cur != TopmostMode::Always,
        toggled(cur) == TopmostMode::Never <==> cur == TopmostMode::Always,
{
}

/// The tooltip begins with the name. It says nothing more exactly where all is normal, and from
/// what follows the name the states can be told apart.
pub proof fn lemma_tooltip_tells_the_state(a: TrayIconState, b: TrayIconState, pet_name: Seq<char>)
    ensures
        text::starts(tooltip(a, pet_name), called(pet_name)),
        tooltip(a, pet_name) == tooltip(b, pet_name) ==> a == b,
        tooltip(a, pet_name) == called(pet_name) <==> a == TrayIconState::Normal,
        pet_name.len() > 0 ==> called(pet_name) == pet_name,
        pet_name.len() == 0 ==> called(pet_name) == "{name}"@,
        tooltip(TrayIconState::LeftHome, pet_name) == called(pet_name) + " 离开了"@,
{
    reveal_strlit(" 离开了");
    reveal_strlit("（不可交互）");
    assert(" 离开了"@.len() == 4 && "（不可交互）"@.len() == 6);
    let base = called(pet_name);
    assert(tooltip(a, pet_name).subrange(0, base.len() as int) =~= base);
}

/// Care stands first in the menu, after it the window and the application, then quitting, and
/// last the recall; quitting and the recall each stand alone.
pub proof fn lemma_groups_of_the_menu(a: TrayAction)
    ensures
        group(a) == group(TrayAction::Coax) <==> a == TrayAction::Coax || a == TrayAction::Feed || a
            == TrayAction::Bath,
        group(a) == group(TrayAction::Quit) <==> a == TrayAction::Quit,
        group(a) == group(TrayAction::Recall) <==> a == TrayAction::Recall,
        group(a) == group(TrayAction::ShowHide) <==> a == TrayAction::ShowHide || a
            == TrayAction::ToggleTopmost || a == TrayAction::ToggleClickThrough || a
            == TrayAction::Settings || a == TrayAction::About,
        group(TrayAction::Coax) < group(TrayAction::ShowHide) < group(TrayAction::Quit) < group(
            TrayAction::Recall,
        ),
{
}

/// The menu lists every entry once and in order, from the first line to the last: the line
/// before an entry is the entry before it where both are of one group, and a separator where
/// they are not.
pub proof fn lemma_menu_lists_every_entry(entries: Seq<TrayAction>)
    requires
        0 < entries.len() <= usize::MAX,
    ensures
        lines_for(entries).len() > 0,
        lines_for(entries)[0] == (MenuLine::Entry { at: 0 }),
        lines_for(entries).last() == (MenuLine::Entry { at: (entries.len() - 1) as usize }),
        forall|j: int|
            0 < j < lines_for(entries).len() ==> match #[trigger] lines_for(entries)[j] {
                MenuLine::Entry { at } => 0 < at < entries.len() && {
                    let apart = group(entries[at - 1]) != group(entries[at as int]);
                    &&& apart ==> j > 1 && lines_for(entries)[j - 1] is Separator && lines_for(
                        entries,
                    )[j - 2] == (MenuLine::Entry { at: (at - 1) as usize })
                    &&& !apart ==> lines_for(entries)[j - 1] == (MenuLine::Entry {
                        at: (at - 1) as usize,
                    })
                },
                MenuLine::Separator => j + 1 < lines_for(entries).len(),
            },
    decreases entries.len(),
{
    let lines = lines_for(entries);
    if entries.len() == 1 {
        reveal_with_fuel(lines_for, 2);
        assert(entries.drop_last() =~= Seq::empty());
    } else {
        let head = entries.drop_last();
        let before = lines_for(head);
        lemma_menu_lists_every_entry(head);
        assert(lines[0] == before[0]);
        assert forall|j: int| 0 < j < lines.len() implies match #[trigger] lines[j] {
            MenuLine::Entry { at } => 0 < at < entries.len() && {
                let apart = group(entries[at - 1]) != group(entries[at as int]);
                &&& apart ==> j > 1 && lines[j - 1] is Separator && lines[j - 2]
                    == (MenuLine::Entry { at: (at - 1) as usize })
                &&& !apart ==> lines[j - 1] == (MenuLine::Entry { at: (at - 1) as usize })
            },
            MenuLine::Separator => j + 1 < lines.len(),
        } by {
            if j < before.len() {
                assert(lines[j] == before[j]);
                assert(lines[j - 1] == before[j - 1]);
                if j > 1 {
                    assert(lines[j - 2] == before[j - 2]);
                }
                if let MenuLine::Entry { at } = before[j] {
                    assert(0 < at < head.len());
                    assert(head[at as int] == entries[at as int]);
                    assert(head[at - 1] == entries[at - 1]);
                }
            } else {
                assert(before.last() == before[before.len() - 1]);
                assert(lines[before.len() - 1] == before[before.len() - 1]);
            }
        }
    }
}

/// What an entry asks of the window is the opposite of what is so, and the switch for staying
/// above others is remembered as it was asked for. Choosing it twice changes nothing.
pub proof fn lemma_entries_turn_things_over(
    mirror: TrayMirror,
    action: TrayAction,
    click_through: bool,
)
    ensures
        ({
            let step = mirror.step(action, click_through);
            let after = mirror.acted(action);
            &&& step is SetTopmost <==> action == TrayAction::ToggleTopmost
            &&& step matches TrayStep::SetTopmost { mode } ==> mode != mirror.topmost() && mode
                == after.topmost()
            &&& step is SetVisible <==> action == TrayAction::ShowHide
            &&& step matches TrayStep::SetVisible { visible } ==> visible != mirror.visible
                && mirror.shown(visible, true).visible == visible
            &&& step is SetClickThrough <==> action == TrayAction::ToggleClickThrough
            &&& step matches TrayStep::SetClickThrough { on } ==> on != click_through
            &&& step == TrayStep::Quit <==> action == TrayAction::Quit
            &&& step == TrayStep::Recall <==> action == TrayAction::Recall
            &&& after.visible == mirror.visible
            &&& action != TrayAction::ToggleTopmost ==> after == mirror
            &&& after.acted(action) == mirror
        }),
{
}

/// What could not be done to the window is not remembered, and showing it does not touch the
/// switch for staying above others.
pub proof fn lemma_mirror_shows_what_was_done(mirror: TrayMirror, visible: bool)
    ensures
        mirror.shown(visible, false) == mirror,
        mirror.shown(visible, true).visible == visible,
        mirror.shown(visible, true).topmost_on == mirror.topmost_on,
        mirror.topmost() == TopmostMode::Always <==> mirror.topmost_on,
        mirror.topmost() != TopmostMode::BelowFullscreen,
{
}

} // verus!
