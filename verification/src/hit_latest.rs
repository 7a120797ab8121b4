//! Whether a point on the screen hits the pet.
//!
//! The window of the pet is a rectangle, the pet is not. A point inside the window
//! is carried over to the frame that is shown, and the mask of that frame says
//! whether the pet is there. Where there is no mask to ask, the rectangle decides.

use crate::bridge::frame::FrameRect;
use crate::ports::PetBBoxHandle;
use crate::text;
use vstd::prelude::*;

verus! {

/// The combined index that stands for no frame.
pub const FRAME_INDEX_NONE: u32 = 0xffff_ffff;

/// The mark of a mirrored frame.
const MIRROR_BIT: u64 = 0x8000_0000_0000_0000;

/// The part of a packed frame that holds its combined index.
const INDEX_MASK: u64 = 0xffff_ffff;

/// An action and a frame of it in one number.
pub open spec fn combined(action_index: u32, frame_index: u32) -> u32 {
    ((action_index as int % 0x1_0000) * 0x1_0000 + frame_index as int % 0x1_0000) as u32
}

/// The frame that is shown, packed into one word.
#[derive(Debug)]
pub struct FrameCursor {
    packed: u64,
}

impl FrameCursor {
    /// The combined index of the frame, and whether it is mirrored.
    pub closed spec fn shown(self) -> (u32, bool) {
        ((self.packed & INDEX_MASK) as u32, self.packed & MIRROR_BIT != 0)
    }

    /// No frame is shown.
    pub fn new() -> (r: Self)
        ensures
            r.shown() == (FRAME_INDEX_NONE, false),
    {
        let packed: u64 = FRAME_INDEX_NONE as u64;
        assert((packed & 0xffff_ffff) as u32 == 0xffff_ffff && packed & 0x8000_0000_0000_0000 == 0)
            by (bit_vector)
            requires
                packed == 0xffff_ffff,
        ;
        FrameCursor { packed }
    }

    /// Shows a frame of an action; both are numbered in sixteen bits.
    pub fn publish(&mut self, action_index: u32, frame_index: u32, mirror: bool)
        ensures
            final(self).shown() == (combined(action_index, frame_index), mirror),
    {
        let base: u64 = ((action_index as u64) << 16) | ((frame_index & 0xffff) as u64);
        assert((base & 0xffff_ffff) == (action_index % 0x1_0000) * 0x1_0000 + frame_index % 0x1_0000
            && base & 0x8000_0000_0000_0000 == 0) by (bit_vector)
            requires
                base == ((action_index as u64) << 16) | ((frame_index & 0xffff) as u64),
        ;
        assert(((base | 0x8000_0000_0000_0000) & 0xffff_ffff) == base & 0xffff_ffff && (base
            | 0x8000_0000_0000_0000) & 0x8000_0000_0000_0000 != 0) by (bit_vector);
        if mirror {
            self.packed = base | MIRROR_BIT;
        } else {
            self.packed = base;
        }
    }

    /// The combined index of the frame, and whether it is mirrored.
    pub fn snapshot(&self) -> (r: (u32, bool))
        ensures
            r == self.shown(),
    {
        ((self.packed & INDEX_MASK) as u32, self.packed & MIRROR_BIT != 0)
    }
}

impl Default for FrameCursor {
    /// No frame is shown.
    fn default() -> (r: Self)
        ensures
            r.shown() == (FRAME_INDEX_NONE, false),
    {
        FrameCursor::new()
    }
}

/// What was published is read back: the action and the frame both come out of the
/// combined index, as long as each has no more than sixteen bits. Only the last frame
/// of the last action then reads like no frame at all.
pub proof fn lemma_index_round_trip(action_index: u32, frame_index: u32)
    requires
        action_index <= 0xffff,
        frame_index <= 0xffff,
    ensures
        combined(action_index, frame_index) / 0x1_0000 == action_index,
        combined(action_index, frame_index) % 0x1_0000 == frame_index,
        combined(action_index, frame_index) == FRAME_INDEX_NONE <==> action_index == 0xffff
            && frame_index == 0xffff,
{
}

/// Which pixels of a frame belong to the pet.
#[derive(Clone, Debug, PartialEq, Eq)]
pub struct HitMask {
    pub width: u32,
    pub height: u32,
    /// The pixels, row by row.
    pub lit: Vec<bool>,
}

impl HitMask {
    /// There are no pixels.
    pub open spec fn blank(self) -> bool {
        self.width == 0 || self.height == 0
    }

    /// There is a pixel for each place.
    pub open spec fn wf(self) -> bool {
        self.lit.len() == self.width * self.height
    }

    /// The pixel at `(x, y)` belongs to the pet; outside none does.
    pub open spec fn lit_at(self, x: int, y: int) -> bool {
        0 <= x < self.width && 0 <= y < self.height && self.lit@[y * self.width + x]
    }

    /// A mask without pixels.
    pub fn empty() -> (r: Self)
        ensures
            r.wf(),
            r.blank(),
    {
        HitMask { width: 0, height: 0, lit: Vec::new() }
    }

    /// Whether there are no pixels.
    pub fn is_empty(&self) -> (r: bool)
        ensures
            r == self.blank(),
    {
        self.width == 0 || self.height == 0
    }

    /// Whether the pixel belongs to the pet; outside none does.
    pub fn bit_at(&self, x: u32, y: u32) -> (r: bool)
        requires
            self.wf(),
        ensures
            r == self.lit_at(x as int, y as int),
    {
        if x >= self.width || y >= self.height {
            return false;
        }
        proof {
            let (w, h) = (self.width as int, self.height as int);
            let (i, j) = (x as int, y as int);
            assert(0 <= j * w && j * w + i < w * h) by (nonlinear_arith)
                requires
                    0 <= i < w,
                    0 <= j < h,
            ;
        }
        self.lit[y as usize * self.width as usize + x as usize]
    }

    /// Whether the pixel belongs to the pet where the frame, `frame_w` wide, is mirrored.
    pub fn bit_at_mirrored(&self, x: u32, y: u32, frame_w: u32) -> (r: bool)
        requires
            self.wf(),
        ensures
            r == (x < frame_w && self.lit_at(frame_w - 1 - x, y as int)),
    {
        x < frame_w && self.bit_at(frame_w - 1 - x, y)
    }
}

/// The value of the bits of `v` read with a sign.
pub open spec fn signed(v: int) -> int {
    if v < 0x8000_0000 {
        v
    } else {
        v - 0x1_0000_0000
    }
}

fn with_sign(v: u32) -> (r: i32)
    ensures
        r == signed(v as int),
{
    assert(v < 0x8000_0000 ==> (v as i32) == v) by (bit_vector);
    assert(v >= 0x8000_0000 ==> (v as i32) == v - 0x1_0000_0000) by (bit_vector);
    v as i32
}

/// A part of a frame that can be hovered over, in frame pixels.
#[derive(Clone, Copy, Debug, PartialEq, Eq, Structural)]
pub struct HitRect {
    pub x: i32,
    pub y: i32,
    pub w: i32,
    pub h: i32,
}

impl HitRect {
    /// `(x, y)` lies inside; the right and the lower edge lie outside.
    pub open spec fn encloses(self, x: int, y: int) -> bool {
        self.x <= x < self.x + self.w && self.y <= y < self.y + self.h
    }

    /// Whether the point lies inside; the right and the lower edge lie outside.
    pub fn contains(&self, x: i32, y: i32) -> (r: bool)
        ensures
            r == self.encloses(x as int, y as int),
    {
        self.x <= x && (x as i64) < self.x as i64 + self.w as i64 && self.y <= y && (y as i64)
            < self.y as i64 + self.h as i64
    }
}

/// The rectangle that an atlas gives for a part that can be hovered over.
pub open spec fn region(rect: FrameRect) -> HitRect {
    HitRect {
        x: signed(rect.x as int) as i32,
        y: signed(rect.y as int) as i32,
        w: signed(rect.w as int) as i32,
        h: signed(rect.h as int) as i32,
    }
}

/// An action whose frames can be hit.
#[derive(Clone, Debug)]
pub struct MaskEntry {
    pub action_id: String,
    /// The place of the action among all actions.
    pub base: u32,
    /// A mask for each frame; one without pixels where the image could not be read.
    pub frames: Vec<HitMask>,
    pub frame_w: u32,
    pub frame_h: u32,
    /// The parts that can be hovered over.
    pub secondaries: Vec<HitRect>,
}

impl MaskEntry {
    pub open spec fn wf(self) -> bool {
        forall|i: int| 0 <= i < self.frames.len() ==> (#[trigger] self.frames@[i]).wf()
    }

    /// `(x, y)` lies in one of the parts that can be hovered over.
    pub open spec fn hovered(self, x: int, y: int) -> bool {
        exists|i: int|
            0 <= i < self.secondaries.len() && (#[trigger] self.secondaries@[i]).encloses(x, y)
    }

    fn hovers(&self, x: i32, y: i32) -> (r: bool)
        ensures
            r == self.hovered(x as int, y as int),
    {
        let mut i: usize = 0;
        while i < self.secondaries.len()
            invariant
                i <= self.secondaries.len(),
                forall|j: int|
                    0 <= j < i ==> !(#[trigger] self.secondaries@[j]).encloses(x as int, y as int),
            decreases self.secondaries.len() - i,
        {
            if self.secondaries[i].contains(x, y) {
                assert(self.secondaries@[i as int].encloses(x as int, y as int));
                return true;
            }
            i = i + 1;
        }
        false
    }
}

/// What an atlas says of an action, as far as hitting it goes.
#[derive(Clone, Debug)]
pub struct MaskMeta {
    pub action_id: String,
    pub frame_w: u32,
    pub frame_h: u32,
    /// The parts that can be hovered over.
    pub secondary: Vec<FrameRect>,
}

/// An image with four bytes for each pixel, row by row.
#[derive(Clone, Debug)]
pub struct DecodedRgba {
    pub width: u32,
    pub height: u32,
    pub data: Vec<u8>,
}

impl DecodedRgba {
    /// There are four bytes for each pixel.
    pub open spec fn wf(self) -> bool {
        self.data.len() >= self.width * self.height * 4
    }

    /// The rectangle is one and lies inside the image.
    pub open spec fn holds(self, rect: FrameRect) -> bool {
        &&& rect.w > 0
        &&& rect.h > 0
        &&& rect.x + rect.w <= self.width
        &&& rect.y + rect.h <= self.height
    }

    /// The bytes of one row of the rectangle.
    pub open spec fn row(self, rect: FrameRect, row: int) -> Seq<u8> {
        let from = ((rect.y + row) * self.width + rect.x) * 4;
        self.data@.subrange(from, from + rect.w * 4)
    }

    /// The bytes of the first rows of the rectangle.
    pub open spec fn rows(self, rect: FrameRect, count: nat) -> Seq<u8>
        decreases count,
    {
        if count == 0 {
            Seq::empty()
        } else {
            self.rows(rect, (count - 1) as nat) + self.row(rect, count - 1)
        }
    }

    proof fn lemma_row_inside(self, rect: FrameRect, row: int)
        requires
            self.wf(),
            self.holds(rect),
            0 <= row < rect.h,
        ensures
            0 <= ((rect.y + row) * self.width + rect.x) * 4,
            ((rect.y + row) * self.width + rect.x) * 4 + rect.w * 4 <= self.data.len(),
            0 <= (rect.y + row) * self.width,
            ((rect.y + row) * self.width + rect.x) <= self.width * self.height,
    {
        let (w, h, y) = (self.width as int, self.height as int, rect.y + row);
        assert(0 <= y * w && y * w + w <= w * h) by (nonlinear_arith)
            requires
                0 <= y < h,
                0 <= w,
        ;
    }
}

/// Cuts a rectangle out of an image; none where it is empty or does not lie inside.
pub fn extract_frame_rgba(full: &DecodedRgba, rect: FrameRect) -> (r: Option<Vec<u8>>)
    requires
        full.wf(),
    ensures
        r is Some <==> full.holds(rect),
        r matches Some(bytes) ==> bytes@ == full.rows(rect, rect.h as nat),
{
    if rect.w == 0 || rect.h == 0 {
        return None;
    }
    if rect.x as u64 + rect.w as u64 > full.width as u64 || rect.y as u64 + rect.h as u64
        > full.height as u64 {
        return None;
    }
    let mut out: Vec<u8> = Vec::new();
    let mut row: u32 = 0;
    while row < rect.h
        invariant
            row <= rect.h,
            full.wf(),
            full.holds(rect),
            out@ == full.rows(rect, row as nat),
        decreases rect.h - row,
    {
        proof {
            full.lemma_row_inside(rect, row as int);
        }
        let from: usize = ((rect.y + row) as usize * full.width as usize + rect.x as usize) * 4;
        let to: usize = from + rect.w as usize * 4;
        let ghost before = out@;
        let mut at: usize = from;
        while at < to
            invariant
                from <= at <= to <= full.data.len(),
                out@ == before + full.data@.subrange(from as int, at as int),
            decreases to - at,
        {
            out.push(full.data[at]);
            at = at + 1;
            assert(out@ =~= before + full.data@.subrange(from as int, at as int));
        }
        row = row + 1;
    }
    Some(out)
}

/// Cuts the frames of an action out of its image.
///
/// `rects` says where each frame stands, none where it stands nowhere. Without an
/// image, or where a frame does not lie inside it, the frame is missing; the others
/// keep their places.
pub fn cut_frames(full: &Option<DecodedRgba>, rects: &Vec<Option<FrameRect>>) -> (r: Vec<
    Option<Vec<u8>>,
>)
    requires
        *full matches Some(image) ==> image.wf(),
    ensures
        r.len() == rects.len(),
        forall|i: int|
            0 <= i < r.len() ==> match (*full, rects@[i]) {
                (Some(image), Some(rect)) => {
                    &&& (#[trigger] r@[i] is Some <==> image.holds(rect))
                    &&& r@[i] matches Some(bytes) ==> bytes@ == image.rows(rect, rect.h as nat)
                },
                _ => r@[i] is None,
            },
{
    let mut out: Vec<Option<Vec<u8>>> = Vec::new();
    let mut i: usize = 0;
    while i < rects.len()
        invariant
            i <= rects.len(),
            out.len() == i,
            *full matches Some(image) ==> image.wf(),
            forall|j: int|
                0 <= j < i ==> match (*full, rects@[j]) {
                    (Some(image), Some(rect)) => {
                        &&& (#[trigger] out@[j] is Some <==> image.holds(rect))
                        &&& out@[j] matches Some(bytes) ==> bytes@ == image.rows(
                            rect,
                            rect.h as nat,
                        )
                    },
                    _ => out@[j] is None,
                },
        decreases rects.len() - i,
    {
        let cut = match full {
            Some(image) => match rects[i] {
                Some(rect) => extract_frame_rgba(image, rect),
                None => None,
            },
            None => None,
        };
        out.push(cut);
        i = i + 1;
    }
    out
}

/// The masks of an action's frames: a frame without one gets a mask without pixels, so
/// that every frame keeps its place.
pub fn fill_masks(built: Vec<Option<HitMask>>) -> (r: Vec<HitMask>)
    requires
        forall|i: int| 0 <= i < built.len() ==> ((#[trigger] built@[i]) matches Some(m) ==> m.wf()),
    ensures
        r.len() == built.len(),
        forall|i: int|
            0 <= i < r.len() ==> (#[trigger] r@[i]).wf() && match built@[i] {
                Some(mask) => r@[i] == mask,
                None => r@[i].blank(),
            },
{
    let ghost given = built@;
    let mut left = built;
    let mut masks: Vec<HitMask> = Vec::new();
    while left.len() > 0
        invariant
            masks.len() + left.len() == given.len(),
            left@ == given.subrange(masks.len() as int, given.len() as int),
            forall|i: int| 0 <= i < given.len() ==> ((#[trigger] given[i]) matches Some(m) ==> m.wf()),
            forall|i: int|
                0 <= i < masks.len() ==> (#[trigger] masks@[i]).wf() && match given[i] {
                    Some(mask) => masks@[i] == mask,
                    None => masks@[i].blank(),
                },
        decreases left.len(),
    {
        let next = left.remove(0);
        assert(next == given[masks.len() as int]);
        masks.push(
            match next {
                Some(mask) => mask,
                None => HitMask::empty(),
            },
        );
        assert(left@ =~= given.subrange(masks.len() as int, given.len() as int));
    }
    masks
}

/// All actions whose frames can be hit.
#[derive(Clone, Debug)]
pub struct MaskStore {
    entries: Vec<MaskEntry>,
}

/// The last place before `to` at which an action of this name stands, or -1.
pub open spec fn last_named(entries: Seq<MaskEntry>, action_id: Seq<char>, to: int) -> int
    decreases to,
{
    if to <= 0 {
        -1
    } else if entries[to - 1].action_id@ == action_id {
        to - 1
    } else {
        last_named(entries, action_id, to - 1)
    }
}

impl MaskStore {
    /// The actions.
    pub closed spec fn actions(self) -> Seq<MaskEntry> {
        self.entries@
    }

    pub open spec fn wf(self) -> bool {
        &&& self.actions().len() <= u32::MAX
        &&& forall|i: int|
            0 <= i < self.actions().len() ==> (#[trigger] self.actions()[i]).wf()
                && self.actions()[i].base == i
    }

    /// A library of these actions, each at the place that its `base` says.
    pub fn from_entries(entries: Vec<MaskEntry>) -> (r: Self)
        requires
            entries.len() <= u32::MAX,
            forall|i: int|
                0 <= i < entries.len() ==> (#[trigger] entries@[i]).wf() && entries@[i].base == i,
        ensures
            r.wf(),
            r.actions() == entries@,
    {
        MaskStore { entries }
    }

    /// How many actions there are.
    pub fn len(&self) -> (r: usize)
        ensures
            r == self.actions().len(),
    {
        self.entries.len()
    }

    /// The action at this place.
    pub fn entry(&self, at: usize) -> (r: Option<&MaskEntry>)
        ensures
            at < self.actions().len() ==> r == Some(&self.actions()[at as int]),
            at >= self.actions().len() ==> r is None,
    {
        if at < self.entries.len() {
            Some(&self.entries[at])
        } else {
            None
        }
    }

    /// The place of the action of this name; of several the last.
    pub fn base_of(&self, action_id: &str) -> (r: Option<u32>)
        requires
            self.wf(),
        ensures
            r == (if last_named(self.actions(), action_id@, self.actions().len() as int) < 0 {
                None::<u32>
            } else {
                Some(last_named(self.actions(), action_id@, self.actions().len() as int) as u32)
            }),
    {
        let mut i: usize = self.entries.len();
        while i > 0
            invariant
                self.wf(),
                i <= self.entries.len(),
                last_named(self.actions(), action_id@, self.actions().len() as int) == last_named(
                    self.actions(),
                    action_id@,
                    i as int,
                ),
            decreases i,
        {
            if text::equal(self.entries[i - 1].action_id.as_str(), action_id) {
                return Some(self.entries[i - 1].base);
            }
            i = i - 1;
        }
        None
    }
}

/// The action with its masks, at its place among all actions.
pub open spec fn entry_for(meta: MaskMeta, masks: Seq<HitMask>, at: int, entry: MaskEntry) -> bool {
    &&& entry.action_id@ == meta.action_id@
    &&& entry.base == at
    &&& entry.frames@ == masks
    &&& entry.frame_w == meta.frame_w
    &&& entry.frame_h == meta.frame_h
    &&& entry.secondaries@ == meta.secondary@.map_values(|rect: FrameRect| region(rect))
}

/// The action with its masks, at its place among all actions.
pub fn build_entry(meta: MaskMeta, masks: Vec<HitMask>, at: u32) -> (r: MaskEntry)
    ensures
        entry_for(meta, masks@, at as int, r),
{
    let mut secondaries: Vec<HitRect> = Vec::new();
    let mut i: usize = 0;
    while i < meta.secondary.len()
        invariant
            i <= meta.secondary.len(),
            secondaries@ == meta.secondary@.take(i as int).map_values(
                |rect: FrameRect| region(rect),
            ),
        decreases meta.secondary.len() - i,
    {
        let rect = meta.secondary[i];
        secondaries.push(
            HitRect {
                x: with_sign(rect.x),
                y: with_sign(rect.y),
                w: with_sign(rect.w),
                h: with_sign(rect.h),
            },
        );
        i = i + 1;
        assert(secondaries@ =~= meta.secondary@.take(i as int).map_values(
            |rect: FrameRect| region(rect),
        ));
    }
    assert(meta.secondary@.take(i as int) =~= meta.secondary@);
    MaskEntry {
        action_id: meta.action_id,
        base: at,
        frames: masks,
        frame_w: meta.frame_w,
        frame_h: meta.frame_h,
        secondaries,
    }
}

/// A library of all actions of an atlas with their masks, in the order of the atlas.
pub fn build_store_with(actions: Vec<(MaskMeta, Vec<HitMask>)>) -> (r: MaskStore)
    requires
        actions.len() <= u32::MAX,
        forall|i: int, j: int|
            0 <= i < actions.len() && 0 <= j < actions@[i].1.len() ==> (
            #[trigger] actions@[i].1@[j]).wf(),
    ensures
        r.wf(),
        r.actions().len() == actions.len(),
        forall|i: int|
            0 <= i < actions.len() ==> entry_for(
                actions@[i].0,
                actions@[i].1@,
                i,
                #[trigger] r.actions()[i],
            ),
{
    let ghost given = actions@;
    let mut left = actions;
    let mut entries: Vec<MaskEntry> = Vec::new();
    while left.len() > 0
        invariant
            given.len() <= u32::MAX,
            entries.len() + left.len() == given.len(),
            left@ == given.subrange(entries.len() as int, given.len() as int),
            forall|i: int, j: int|
                0 <= i < given.len() && 0 <= j < given[i].1.len() ==> (
                #[trigger] given[i].1@[j]).wf(),
            forall|i: int|
                0 <= i < entries.len() ==> entry_for(
                    given[i].0,
                    given[i].1@,
                    i,
                    #[trigger] entries@[i],
                ) && entries@[i].wf(),
        decreases left.len(),
    {
        let (meta, masks) = left.remove(0);
        let at: u32 = entries.len() as u32;
        assert((meta, masks) == given[at as int]);
        let entry = build_entry(meta, masks, at);
        assert(entry.wf());
        entries.push(entry);
        assert(left@ =~= given.subrange(entries.len() as int, given.len() as int));
    }
    MaskStore::from_entries(entries)
}

/// Whether a point of a frame belongs to the pet, or only to a part that can be
/// hovered over, or to neither.
#[derive(Clone, Copy, Debug, PartialEq, Eq, Structural)]
pub enum HitResult {
    Miss,
    Hover,
    Hit,
}

/// What a point of the shown frame hits.
///
/// A mask without pixels says nothing, so the point counts as a hit. A mirrored frame
/// is looked up from its other side.
pub open spec fn verdict(
    entry: MaskEntry,
    frame: HitMask,
    x: int,
    y: int,
    mirror: bool,
) -> HitResult {
    let across = if mirror && x < entry.frame_w {
        entry.frame_w - 1 - x
    } else {
        x
    };
    if frame.blank() {
        HitResult::Hit
    } else if x < 0 || y < 0 {
        HitResult::Miss
    } else if (!mirror || x < entry.frame_w) && frame.lit_at(across, y) {
        HitResult::Hit
    } else if entry.hovered(signed(across), y) {
        HitResult::Hover
    } else {
        HitResult::Miss
    }
}

/// The masks, once they are there, and the frame that is shown.
#[derive(Debug)]
pub struct MaskHitSource {
    store: Option<MaskStore>,
    cursor: FrameCursor,
}

impl MaskHitSource {
    /// The masks, once they are there.
    pub closed spec fn masks(self) -> Option<MaskStore> {
        self.store
    }

    /// The combined index of the frame that is shown, and whether it is mirrored.
    pub closed spec fn shown(self) -> (u32, bool) {
        self.cursor.shown()
    }

    pub open spec fn wf(self) -> bool {
        self.masks() matches Some(store) ==> store.wf()
    }

    /// There is a mask for the frame that is shown: its action and its frame.
    pub open spec fn resolved(self) -> Option<(MaskEntry, HitMask)> {
        let (index, mirror) = self.shown();
        let (action, frame) = (index as int / 0x1_0000, index as int % 0x1_0000);
        match self.masks() {
            Some(store) => if index != FRAME_INDEX_NONE && action < store.actions().len() && frame
                < store.actions()[action].frames.len() {
                Some((store.actions()[action], store.actions()[action].frames@[frame]))
            } else {
                None
            },
            None => None,
        }
    }

    /// What a point of the frame hits; without a mask everything does.
    pub open spec fn verdict_at(self, x: int, y: int, mirror: bool) -> HitResult {
        match self.resolved() {
            Some((entry, frame)) => verdict(entry, frame, x, y, mirror),
            None => HitResult::Hit,
        }
    }

    /// The given masks and cursor.
    pub fn new(store: Option<MaskStore>, cursor: FrameCursor) -> (r: Self)
        ensures
            r.masks() == store,
            r.shown() == cursor.shown(),
    {
        MaskHitSource { store, cursor }
    }

    fn resolve(&self) -> (r: Option<(&MaskEntry, &HitMask)>)
        requires
            self.wf(),
        ensures
            r is Some <==> self.resolved() is Some,
            r matches Some(pair) ==> self.resolved() == Some((*pair.0, *pair.1)) && pair.1.wf(),
    {
        let (index, _mirror) = self.cursor.snapshot();
        if index == FRAME_INDEX_NONE {
            return None;
        }
        match &self.store {
            None => None,
            Some(store) => {
                assert(index >> 16 == index / 0x1_0000 && index & 0xffff == index % 0x1_0000)
                    by (bit_vector);
                match store.entry((index >> 16) as usize) {
                    None => None,
                    Some(entry) => {
                        let frame: usize = (index & 0xffff) as usize;
                        if frame < entry.frames.len() {
                            Some((entry, &entry.frames[frame]))
                        } else {
                            None
                        }
                    },
                }
            },
        }
    }

    /// What a point of the frame hits; without a mask everything does.
    pub fn test(&self, frame_x: i32, frame_y: i32, mirror: bool) -> (r: HitResult)
        requires
            self.wf(),
        ensures
            r == self.verdict_at(frame_x as int, frame_y as int, mirror),
    {
        match self.resolve() {
            None => HitResult::Hit,
            Some((entry, mask)) => {
                if mask.is_empty() {
                    return HitResult::Hit;
                }
                if frame_x < 0 || frame_y < 0 {
                    return HitResult::Miss;
                }
                let (fx, fy): (u32, u32) = (frame_x as u32, frame_y as u32);
                let hit = if mirror {
                    mask.bit_at_mirrored(fx, fy, entry.frame_w)
                } else {
                    mask.bit_at(fx, fy)
                };
                if hit {
                    return HitResult::Hit;
                }
                let across: u32 = if mirror && fx < entry.frame_w {
                    entry.frame_w - 1 - fx
                } else {
                    fx
                };
                if entry.hovers(with_sign(across), frame_y) {
                    HitResult::Hover
                } else {
                    HitResult::Miss
                }
            },
        }
    }
}

/// What a point of the screen hits.
#[derive(Clone, Copy, Debug, PartialEq, Eq, Structural)]
pub enum HitOutcomeForTest {
    /// Nothing of the pet.
    Miss,
    /// A part that can be hovered over.
    Hover,
    /// The pet.
    Hit,
}

/// The frame pixel under a point `local` pixels from the edge of a window of `extent`
/// pixels that shows `frame` pixels.
pub open spec fn scaled_down(local: int, frame: u32, extent: int) -> int {
    local * frame as int / extent
}

/// The window of the pet, the masks and the frame that is shown.
#[derive(Debug)]
pub struct HitLatestHandle {
    bbox: PetBBoxHandle,
    source: MaskHitSource,
}

impl HitLatestHandle {
    /// The window of the pet.
    pub closed spec fn window(self) -> PetBBoxHandle {
        self.bbox
    }

    /// The masks and the frame that is shown.
    pub closed spec fn source(self) -> MaskHitSource {
        self.source
    }

    pub open spec fn wf(self) -> bool {
        self.source().wf()
    }

    /// The extent of the window can be expressed.
    pub open spec fn measurable(self) -> bool {
        let (left, top, right, bottom) = self.window().edges();
        i32::MIN <= right - left <= i32::MAX && i32::MIN <= bottom - top <= i32::MAX
    }

    /// What a point of the screen hits.
    pub open spec fn outcome(self, x: int, y: int) -> HitOutcomeForTest {
        let (left, top, right, bottom) = self.window().edges();
        if !self.window().encloses(x, y) {
            HitOutcomeForTest::Miss
        } else {
            match self.source().resolved() {
                None => HitOutcomeForTest::Hit,
                Some((entry, frame)) => if entry.frame_w == 0 || entry.frame_h == 0 {
                    HitOutcomeForTest::Hit
                } else {
                    match verdict(
                        entry,
                        frame,
                        signed(scaled_down(x - left, entry.frame_w, right - left)),
                        signed(scaled_down(y - top, entry.frame_h, bottom - top)),
                        self.source().shown().1,
                    ) {
                        HitResult::Miss => HitOutcomeForTest::Miss,
                        HitResult::Hover => HitOutcomeForTest::Hover,
                        HitResult::Hit => HitOutcomeForTest::Hit,
                    }
                },
            }
        }
    }

    /// A window without masks that shows no frame.
    pub fn new(bbox: PetBBoxHandle) -> (r: Self)
        ensures
            r.wf(),
            r.window() == bbox,
            r.source().masks() is None,
            r.source().shown() == (FRAME_INDEX_NONE, false),
    {
        HitLatestHandle { bbox, source: MaskHitSource::new(None, FrameCursor::new()) }
    }

    /// Hands the masks over, once; says whether they were taken.
    pub fn set_store(&mut self, store: MaskStore) -> (taken: bool)
        requires
            old(self).wf(),
            store.wf(),
        ensures
            final(self).wf(),
            taken == old(self).source().masks() is None,
            final(self).source().masks() == masks_after(old(self).source().masks(), store),
            final(self).source().shown() == old(self).source().shown(),
            final(self).window() == old(self).window(),
    {
        if self.source.store.is_none() {
            self.source.store = Some(store);
            true
        } else {
            false
        }
    }

    /// Moves the window.
    pub fn store_bbox(&mut self, left: i32, top: i32, right: i32, bottom: i32)
        ensures
            final(self).window().edges() == (left, top, right, bottom),
            final(self).source() == old(self).source(),
    {
        self.bbox.store(left, top, right, bottom);
    }

    /// The combined index of the frame that is shown, and whether it is mirrored.
    pub fn shown_frame(&self) -> (r: (u32, bool))
        ensures
            r == self.source().shown(),
    {
        self.source.cursor.snapshot()
    }

    /// What counts the frames that could not be shown.
    pub fn feed(&self) -> (r: HitFeed)
        ensures
            r.unknown_count() == 0,
            r.stale_count() == 0,
    {
        HitFeed { unknown: 0, stale: 0 }
    }

    /// What a point of the screen hits.
    pub fn outcome_at(&self, x: i32, y: i32) -> (r: HitOutcomeForTest)
        requires
            self.wf(),
            self.measurable(),
        ensures
            r == self.outcome(x as int, y as int),
    {
        if !self.bbox.contains(x, y) {
            return HitOutcomeForTest::Miss;
        }
        let (left, top, right, bottom) = self.bbox.load();
        match self.source.resolve() {
            None => HitOutcomeForTest::Hit,
            Some((entry, mask)) => {
                if mask.is_empty() || entry.frame_w == 0 || entry.frame_h == 0 {
                    return HitOutcomeForTest::Hit;
                }
                let fx: u32 = scale_down((x - left) as u32, entry.frame_w, (right - left) as u32);
                let fy: u32 = scale_down((y - top) as u32, entry.frame_h, (bottom - top) as u32);
                let (_index, mirror) = self.source.cursor.snapshot();
                match self.source.test(with_sign(fx), with_sign(fy), mirror) {
                    HitResult::Hit => HitOutcomeForTest::Hit,
                    HitResult::Hover => HitOutcomeForTest::Hover,
                    HitResult::Miss => HitOutcomeForTest::Miss,
                }
            },
        }
    }

    /// Whether a point of the screen hits anything of the pet.
    pub fn contains(&self, x: i32, y: i32) -> (r: bool)
        requires
            self.wf(),
            self.measurable(),
        ensures
            r == (self.outcome(x as int, y as int) != HitOutcomeForTest::Miss),
    {
        self.outcome_at(x, y) != HitOutcomeForTest::Miss
    }
}

fn scale_down(local: u32, frame: u32, extent: u32) -> (r: u32)
    requires
        local < extent,
        frame > 0,
    ensures
        r == scaled_down(local as int, frame, extent as int),
        r < frame,
{
    proof {
        lemma_pixel_on_frame(local as int, frame, extent as int);
        assert(local * frame <= 0xffff_ffff * 0xffff_ffff) by (nonlinear_arith)
            requires
                0 <= local <= 0xffff_ffff,
                0 <= frame <= 0xffff_ffff,
        ;
        assert(0 <= local * frame) by (nonlinear_arith);
    }
    (local as u64 * frame as u64 / extent as u64) as u32
}

/// A point inside the window falls on a pixel of the frame, and where the window is as
/// large as the frame on the pixel of the same number.
pub proof fn lemma_pixel_on_frame(local: int, frame: u32, extent: int)
    requires
        0 <= local < extent,
        frame > 0,
    ensures
        0 <= scaled_down(local, frame, extent) < frame,
        extent == frame ==> scaled_down(local, frame, extent) == local,
{
    let f = frame as int;
    assert(0 <= local * f / extent < f) by (nonlinear_arith)
        requires
            0 <= local < extent,
            f > 0,
    ;
    if extent == f {
        assert(local * f / f == local) by (nonlinear_arith)
            requires
                f > 0,
        ;
    }
}

/// Without masks, without a shown frame, or with a mask that has no pixels, the window
/// decides: every point inside hits, every other misses.
pub proof fn lemma_window_decides_without_mask(handle: HitLatestHandle, x: int, y: int)
    requires
        handle.source().resolved() matches Some((entry, frame)) ==> frame.blank(),
    ensures
        handle.outcome(x, y) == if handle.window().encloses(x, y) {
            HitOutcomeForTest::Hit
        } else {
            HitOutcomeForTest::Miss
        },
{
}

/// A mirrored frame is hit where the frame itself is hit on the other side.
pub proof fn lemma_mirror_is_the_other_side(entry: MaskEntry, frame: HitMask, x: int, y: int)
    requires
        0 <= x < entry.frame_w,
    ensures
        verdict(entry, frame, x, y, true) == verdict(entry, frame, entry.frame_w - 1 - x, y, false),
{
}

/// What becomes of a frame that the player shows.
pub enum FrameFate {
    /// It is shown as a frame of the action at this place.
    Shown { action_index: u32 },
    /// Nobody knows its action.
    Unknown,
    /// It comes before the masks, or its number is too large.
    Stale,
}

/// What becomes of a frame of an action, given the masks, if any.
pub open spec fn fate_of(
    masks: Option<MaskStore>,
    action_id: Seq<char>,
    frame_index: u32,
) -> FrameFate {
    match masks {
        None => FrameFate::Stale,
        Some(store) => {
            let at = last_named(store.actions(), action_id, store.actions().len() as int);
            if at < 0 {
                FrameFate::Unknown
            } else if frame_index > 0xffff {
                FrameFate::Stale
            } else {
                FrameFate::Shown { action_index: at as u32 }
            }
        },
    }
}

/// The masks once others were handed over.
pub open spec fn masks_after(before: Option<MaskStore>, store: MaskStore) -> Option<MaskStore> {
    if before is None {
        Some(store)
    } else {
        before
    }
}

/// What counts the frames that could not be shown.
#[derive(Debug)]
pub struct HitFeed {
    unknown: u64,
    stale: u64,
}

impl HitFeed {
    /// How many frames were of an action that nobody knows.
    pub closed spec fn unknown_count(self) -> u64 {
        self.unknown
    }

    /// How many frames came before the masks, or with a number that is too large.
    pub closed spec fn stale_count(self) -> u64 {
        self.stale
    }

    /// Shows a frame of the named action; counts it where that cannot be done.
    pub fn publish(
        &mut self,
        handle: &mut HitLatestHandle,
        action_id: &str,
        frame_index: u32,
        mirror: bool,
    )
        requires
            old(handle).wf(),
        ensures
            final(handle).wf(),
            final(handle).window() == old(handle).window(),
            final(handle).source().masks() == old(handle).source().masks(),
            ({
                let fate = fate_of(old(handle).source().masks(), action_id@, frame_index);
                &&& final(handle).source().shown() == match fate {
                    FrameFate::Shown { action_index } => (
                        combined(action_index, frame_index),
                        mirror,
                    ),
                    _ => old(handle).source().shown(),
                }
                &&& final(self).unknown_count() == if fate == FrameFate::Unknown {
                    crate::queue::next_count(old(self).unknown_count())
                } else {
                    old(self).unknown_count()
                }
                &&& final(self).stale_count() == if fate == FrameFate::Stale {
                    crate::queue::next_count(old(self).stale_count())
                } else {
                    old(self).stale_count()
                }
            }),
    {
        match &handle.source.store {
            None => {
                self.stale = self.stale.wrapping_add(1);
            },
            Some(store) => {
                match store.base_of(action_id) {
                    None => {
                        self.unknown = self.unknown.wrapping_add(1);
                    },
                    Some(action_index) => {
                        if frame_index > 0xffff {
                            self.stale = self.stale.wrapping_add(1);
                        } else {
                            handle.source.cursor.publish(action_index, frame_index, mirror);
                        }
                    },
                }
            },
        }
    }

    /// How many frames were of an action that nobody knows.
    pub fn unknown_publishes(&self) -> (r: u64)
        ensures
            r == self.unknown_count(),
    {
        self.unknown
    }

    /// How many frames came before the masks, or with a number that is too large.
    pub fn stale_publishes(&self) -> (r: u64)
        ensures
            r == self.stale_count(),
    {
        self.stale
    }
}

/// The frame pixel under a point is proportional to its place in the window, for every size of
/// the window: it is the one pixel whose share of the window holds the point.
pub proof fn lemma_pixel_is_proportional(local: int, frame: u32, extent: int)
    requires
        0 <= local < extent,
    ensures
        ({
            let q = scaled_down(local, frame, extent);
            q * extent <= local * frame < (q + 1) * extent
        }),
{
    let f = frame as int;
    let q = local * f / extent;
    assert(q * extent <= local * f < (q + 1) * extent) by (nonlinear_arith)
        requires
            q == local * f / extent,
            extent > 0,
    ;
}

/// Pixels do not cross: a point further right, or further down, falls on the same pixel or on a
/// later one.
pub proof fn lemma_pixels_keep_their_order(a: int, b: int, frame: u32, extent: int)
    requires
        0 <= a <= b < extent,
    ensures
        scaled_down(a, frame, extent) <= scaled_down(b, frame, extent),
{
    lemma_pixel_is_proportional(a, frame, extent);
    lemma_pixel_is_proportional(b, frame, extent);
    let (p, q) = (scaled_down(a, frame, extent), scaled_down(b, frame, extent));
    let f = frame as int;
    assert(p <= q) by (nonlinear_arith)
        requires
            p * extent <= a * f,
            b * f < (q + 1) * extent,
            0 <= a <= b,
            f >= 0,
            extent > 0,
    ;
}

/// A number read with a sign differs from the number itself by nothing or by the whole range,
/// and fits into 31 bits and a sign.
pub proof fn lemma_signed_keeps_the_bits(v: u32)
    ensures
        i32::MIN <= signed(v as int) <= i32::MAX,
        signed(v as int) == v || signed(v as int) == v - 0x1_0000_0000,
{
}

/// A mask is read row by row: its pixels come as many runs as it has rows, each as long as the
/// mask is wide. Outside of it nothing is lit.
pub proof fn lemma_mask_is_read_by_rows(mask: HitMask, x: int, y: int)
    requires
        mask.wf(),
    ensures
        0 <= x < mask.width && 0 <= y < mask.height ==> {
            &&& 0 <= y * mask.width
            &&& (y + 1) * mask.width <= mask.lit.len()
            &&& mask.lit_at(x, y) == mask.lit@.subrange(y * mask.width, (y + 1) * mask.width)[x]
        },
        x < 0 || x >= mask.width || y < 0 || y >= mask.height ==> !mask.lit_at(x, y),
{
    if 0 <= x < mask.width && 0 <= y < mask.height {
        let (w, h) = (mask.width as int, mask.height as int);
        assert(0 <= y * w && (y + 1) * w <= w * h && (y + 1) * w == y * w + w) by (nonlinear_arith)
            requires
                0 <= y < h,
                0 <= w,
        ;
    }
}

/// A part is hovered over at exactly the points whose distance from its corner is less than its
/// extent; a frame is, where one of its parts is.
pub proof fn lemma_parts_are_hovered_from_their_corner(entry: MaskEntry, i: int, dx: int, dy: int)
    requires
        0 <= i < entry.secondaries.len(),
    ensures
        ({
            let part = entry.secondaries@[i];
            &&& part.encloses(part.x + dx, part.y + dy) <==> 0 <= dx < part.w && 0 <= dy < part.h
            &&& 0 <= dx < part.w && 0 <= dy < part.h ==> entry.hovered(part.x + dx, part.y + dy)
        }),
        forall|x: int, y: int|
            (forall|k: int|
                0 <= k < entry.secondaries.len() ==> !(#[trigger] entry.secondaries@[k]).encloses(
                    x,
                    y,
                )) ==> !#[trigger] entry.hovered(x, y),
{
    let part = entry.secondaries@[i];
    if 0 <= dx < part.w && 0 <= dy < part.h {
        assert(entry.secondaries@[i].encloses(part.x + dx, part.y + dy));
    }
}

/// What a point of an upright frame hits: the pet exactly where its pixel is lit, a part to
/// hover over where it is not lit and such a part is there, and nothing beyond the edges. A mask
/// without pixels is hit everywhere.
pub proof fn lemma_lit_pixels_are_hit(entry: MaskEntry, frame: HitMask, x: int, y: int)
    requires
        frame.wf(),
    ensures
        ({
            let result = verdict(entry, frame, x, y, false);
            &&& frame.blank() ==> result == HitResult::Hit
            &&& !frame.blank() ==> (result == HitResult::Hit <==> frame.lit_at(x, y))
            &&& !frame.blank() && (x < 0 || y < 0) ==> result == HitResult::Miss
            &&& !frame.blank() && 0 <= x <= i32::MAX && y >= 0 && !frame.lit_at(x, y) ==> (result
                == HitResult::Hover <==> entry.hovered(x, y))
        }),
{
}

/// The frame that was published is the one whose mask is asked: its action by number, its frame
/// by number. Without masks, without a frame, or with numbers beyond what there is, none is.
pub proof fn lemma_published_frame_is_asked(source: MaskHitSource, action: u32, frame: u32)
    requires
        action <= 0xffff,
        frame <= 0xffff,
        source.shown().0 == combined(action, frame),
    ensures
        ({
            let store = source.masks()->0;
            let there = source.masks() is Some && action < store.actions().len() && frame
                < store.actions()[action as int].frames.len() && !(action == 0xffff && frame
                == 0xffff);
            &&& there ==> source.resolved() == Some(
                (
                    store.actions()[action as int],
                    store.actions()[action as int].frames@[frame as int],
                ),
            )
            &&& !there ==> source.resolved() is None
        }),
{
    lemma_index_round_trip(action, frame);
}

/// A point outside the window misses. A point inside hits where there is no mask to ask. With
/// one, an upright frame is hit exactly where the pixel is lit whose share of the window holds
/// the point, and a mirrored one where that pixel of its other side is.
pub proof fn lemma_screen_point_hits_its_pixel(
    handle: HitLatestHandle,
    x: int,
    y: int,
    column: int,
    row: int,
)
    requires
        handle.wf(),
    ensures
        ({
            let (left, top, right, bottom) = handle.window().edges();
            let inside = left <= x < right && top <= y < bottom;
            let outcome = handle.outcome(x, y);
            &&& !inside ==> outcome == HitOutcomeForTest::Miss
            &&& inside && handle.source().resolved() is None ==> outcome == HitOutcomeForTest::Hit
            &&& inside && (handle.source().resolved() matches Some((entry, frame)) && {
                &&& !frame.blank()
                &&& 0 < entry.frame_w <= i32::MAX
                &&& 0 < entry.frame_h <= i32::MAX
                &&& column * (right - left) <= (x - left) * entry.frame_w < (column + 1) * (right
                    - left)
                &&& row * (bottom - top) <= (y - top) * entry.frame_h < (row + 1) * (bottom - top)
            }) ==> {
                let (entry, frame) = handle.source().resolved()->0;
                let mirror = handle.source().shown().1;
                let across = if mirror { entry.frame_w - 1 - column } else { column };
                &&& outcome == HitOutcomeForTest::Hit <==> frame.lit_at(across, row)
                &&& outcome == HitOutcomeForTest::Hover <==> !frame.lit_at(across, row)
                    && entry.hovered(across, row)
            }
        }),
{
    let (left, top, right, bottom) = handle.window().edges();
    if left <= x < right && top <= y < bottom {
        if let Some((entry, frame)) = handle.source().resolved() {
            if entry.frame_w > 0 && entry.frame_h > 0 {
                lemma_pixel_is_proportional(x - left, entry.frame_w, right - left);
                lemma_pixel_is_proportional(y - top, entry.frame_h, bottom - top);
                lemma_pixel_on_frame(x - left, entry.frame_w, right - left);
                lemma_pixel_on_frame(y - top, entry.frame_h, bottom - top);
                let p = scaled_down(x - left, entry.frame_w, right - left);
                let q = scaled_down(y - top, entry.frame_h, bottom - top);
                lemma_one_share(p, column, (x - left) * entry.frame_w, right - left);
                lemma_one_share(q, row, (y - top) * entry.frame_h, bottom - top);
            }
        }
    }
}

proof fn lemma_one_share(p: int, q: int, n: int, extent: int)
    requires
        extent > 0,
        p * extent <= n < (p + 1) * extent,
    ensures
        q * extent <= n < (q + 1) * extent ==> p == q,
{
    if q * extent <= n < (q + 1) * extent {
        assert(p == q) by (nonlinear_arith)
            requires
                extent > 0,
                p * extent <= n < (p + 1) * extent,
                q * extent <= n < (q + 1) * extent,
        ;
    }
}

/// Of several actions of one name the last one counts: at the place that is found an action of
/// this name stands, and no later one does; nothing is found only where none has the name.
pub proof fn lemma_last_named_is_last(entries: Seq<MaskEntry>, action_id: Seq<char>, to: int)
    requires
        0 <= to <= entries.len(),
    ensures
        ({
            let at = last_named(entries, action_id, to);
            &&& -1 <= at < to
            &&& at >= 0 ==> entries[at].action_id@ == action_id
            &&& forall|i: int| at < i < to ==> (#[trigger] entries[i]).action_id@ != action_id
        }),
    decreases to,
{
    if to > 0 {
        lemma_last_named_is_last(entries, action_id, to - 1);
    }
}

/// A rectangle is held by an image exactly where it has an extent and every place of it is one
/// of the image.
pub proof fn lemma_held_rectangles_lie_inside(image: DecodedRgba, rect: FrameRect)
    ensures
        image.holds(rect) <==> {
            &&& rect.w > 0 && rect.h > 0
            &&& forall|dx: int, dy: int|
                #![trigger rect.x + dx, rect.y + dy]
                0 <= dx < rect.w && 0 <= dy < rect.h ==> rect.x + dx < image.width && rect.y + dy
                    < image.height
        },
{
    if rect.w > 0 && rect.h > 0 {
        assert(rect.x + (rect.w - 1) < image.width ==> rect.x + rect.w <= image.width);
        assert(rect.y + (rect.h - 1) < image.height ==> rect.y + rect.h <= image.height);
    }
}

/// A frame that is cut out holds its own pixels: each byte of the pixel in column `x` and row
/// `y` is that byte of the pixel as far from the corner of the rectangle in the image.
pub proof fn lemma_cut_keeps_pixels(
    image: DecodedRgba,
    rect: FrameRect,
    count: nat,
    x: int,
    y: int,
    byte: int,
)
    requires
        image.wf(),
        image.holds(rect),
        count <= rect.h,
    ensures
        image.rows(rect, count).len() == count * rect.w * 4,
        0 <= x < rect.w && 0 <= y < count && 0 <= byte < 4 ==> {
            &&& 0 <= (y * rect.w + x) * 4 + byte < image.rows(rect, count).len()
            &&& image.rows(rect, count)[(y * rect.w + x) * 4 + byte] == image.data@[((rect.y + y)
                * image.width + rect.x + x) * 4 + byte]
        },
    decreases count,
{
    let w = rect.w as int;
    if count > 0 {
        let before = (count - 1) as nat;
        lemma_cut_keeps_pixels(image, rect, before, x, y, byte);
        image.lemma_row_inside(rect, before as int);
        assert(count * w * 4 == before * w * 4 + w * 4) by (nonlinear_arith)
            requires
                count == before + 1,
        ;
        if 0 <= x < w && 0 <= y < count && 0 <= byte < 4 {
            assert(0 <= (y * w + x) * 4 + byte < count * w * 4) by (nonlinear_arith)
                requires
                    0 <= x < w,
                    0 <= y < count,
                    0 <= byte < 4,
            ;
            if y < before {
                assert((y * w + x) * 4 + byte < before * w * 4) by (nonlinear_arith)
                    requires
                        0 <= x < w,
                        0 <= y < before,
                        0 <= byte < 4,
                ;
            } else {
                assert((y * w + x) * 4 + byte - before * w * 4 == x * 4 + byte) by (nonlinear_arith)
                    requires
                        y == before,
                ;
            }
        }
    }
}

/// A frame is shown exactly where there are masks, an action of its name among them, and its
/// number has no more than sixteen bits; it is then a frame of the last action of that name.
/// Without masks it is stale whatever it is, and without its action unknown whatever its number.
pub proof fn lemma_fates_of_frames(store: MaskStore, action_id: Seq<char>, frame_index: u32)
    requires
        store.actions().len() <= u32::MAX,
    ensures
        fate_of(None, action_id, frame_index) == FrameFate::Stale,
        fate_of(Some(store), action_id, frame_index) == FrameFate::Unknown <==> forall|i: int|
            0 <= i < store.actions().len() ==> (#[trigger] store.actions()[i]).action_id@
                != action_id,
        fate_of(Some(store), action_id, frame_index) matches FrameFate::Shown { action_index } ==> {
            &&& frame_index < 0x1_0000
            &&& action_index < store.actions().len()
            &&& store.actions()[action_index as int].action_id@ == action_id
            &&& forall|i: int|
                action_index < i < store.actions().len() ==> (
                #[trigger] store.actions()[i]).action_id@ != action_id
        },
        fate_of(Some(store), action_id, frame_index) == FrameFate::Stale ==> frame_index >= 0x1_0000,
{
    lemma_last_named_is_last(store.actions(), action_id, store.actions().len() as int);
}

/// Masks are handed over once: the first ones stay.
pub proof fn lemma_first_masks_stay(first: MaskStore, later: MaskStore)
    ensures
        masks_after(None, first) == Some(first),
        masks_after(masks_after(None, first), later) == Some(first),
{
}

/// A mask is blank exactly where it has no pixels, and no place in a blank one is hit.
pub proof fn lemma_blank_masks_have_no_pixels(mask: HitMask, x: int, y: int)
    requires
        mask.wf(),
    ensures
        mask.blank() <==> mask.lit.len() == 0,
        mask.blank() ==> !mask.lit_at(x, y),
        mask.width > 0 && mask.height > 0 ==> !mask.blank(),
{
    let (w, h) = (mask.width as int, mask.height as int);
    assert(w * h == 0 <==> w == 0 || h == 0) by (nonlinear_arith);
}

/// An action keeps its name, its size and its masks, and each of its parts keeps its place and
/// extent.
pub proof fn lemma_actions_keep_their_parts(
    meta: MaskMeta,
    masks: Seq<HitMask>,
    at: int,
    entry: MaskEntry,
    i: int,
)
    requires
        entry_for(meta, masks, at, entry),
        0 <= i < meta.secondary.len(),
    ensures
        entry.action_id@ == meta.action_id@,
        entry.base == at,
        entry.frames@ == masks,
        entry.frame_w == meta.frame_w && entry.frame_h == meta.frame_h,
        entry.secondaries.len() == meta.secondary.len(),
        entry.secondaries@[i] == region(meta.secondary@[i]),
{
}

} // verus!
