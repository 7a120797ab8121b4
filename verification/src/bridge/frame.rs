//! Frame commands: which part of which atlas the pet window shows.

use crate::scalar::Scalar;
use crate::text;
use vstd::prelude::*;

verus! {

/// The event under which frame commands are broadcast.
pub const FRAME_EVENT: &'static str = "pet://frame";

/// The layout version of [`RenderFrameCmd`].
pub const FRAME_CMD_VERSION: u32 = 1;

/// How long the rotation stays on a looping action, in milliseconds.
pub const DWELL_MS: u64 = 2_000;

/// The event under which particle bursts are broadcast.
pub const FX_EVENT: &'static str = "pet://fx";

/// The event under which the context menu is opened.
pub const MENU_EVENT: &'static str = "pet://menu";

/// The event that carries the full state once a second.
pub const STATE_EVENT: &'static str = "pet://state";

/// The event that tells of a change of mood level.
pub const EMOTION_EVENT: &'static str = "pet://emotion";

/// The event that tells how far an apology has come.
pub const COAX_EVENT: &'static str = "pet://coax";

/// The event that carries a speech bubble.
pub const BUBBLE_EVENT: &'static str = "pet://bubble";

/// The event that tells which settings groups changed.
pub const CONFIG_EVENT: &'static str = "pet://config";

/// The layout version of [`ParticleCmd`].
pub const PARTICLE_CMD_VERSION: u32 = 1;

/// The layout version of the menu command.
pub const MENU_CMD_VERSION: u32 = 1;

/// How many particles one burst holds at most.
pub const PARTICLE_BURST_CAP: u32 = 60;

/// The rates at which the frame player may tick.
#[derive(Clone, Copy, Debug, PartialEq, Eq, Structural)]
pub enum FpsTier {
    Fps2,
    Fps4,
    Fps6,
    Fps15,
    Fps30,
    Fps60,
}

impl FpsTier {
    /// Frames per second at this rate.
    pub open spec fn rate(self) -> u32 {
        match self {
            FpsTier::Fps2 => 2,
            FpsTier::Fps4 => 4,
            FpsTier::Fps6 => 6,
            FpsTier::Fps15 => 15,
            FpsTier::Fps30 => 30,
            FpsTier::Fps60 => 60,
        }
    }

    /// Frames per second at this rate.
    pub fn fps(self) -> (r: u32)
        ensures
            r == self.rate(),
            2 <= r <= 60,
    {
        match self {
            FpsTier::Fps2 => 2,
            FpsTier::Fps4 => 4,
            FpsTier::Fps6 => 6,
            FpsTier::Fps15 => 15,
            FpsTier::Fps30 => 30,
            FpsTier::Fps60 => 60,
        }
    }
}

impl Default for FpsTier {
    /// The idle rate of six frames per second.
    fn default() -> (r: Self)
        ensures
            r == FpsTier::Fps6,
    {
        FpsTier::Fps6
    }
}

/// The rate that the frame player follows; whoever holds it may switch it.
#[derive(Debug)]
pub struct FrameTierHandle {
    tier: FpsTier,
}

impl FrameTierHandle {
    /// The rate that is set.
    pub closed spec fn current(self) -> FpsTier {
        self.tier
    }

    /// A handle set to `tier`.
    pub fn new(tier: FpsTier) -> (r: Self)
        ensures
            r.current() == tier,
    {
        FrameTierHandle { tier }
    }

    /// The rate that is set.
    pub fn get(&self) -> (r: FpsTier)
        ensures
            r == self.current(),
    {
        self.tier
    }

    /// Switches the rate.
    pub fn set(&mut self, tier: FpsTier)
        ensures
            final(self).current() == tier,
    {
        self.tier = tier;
    }
}

/// A rectangle inside an atlas, in pixels.
#[derive(Debug, Clone, Copy, PartialEq, Eq, Structural)]
pub struct FrameRect {
    pub x: u32,
    pub y: u32,
    pub w: u32,
    pub h: u32,
}

/// One frame to show.
#[derive(Debug, Clone, PartialEq)]
pub struct RenderFrameCmd {
    /// Layout version.
    pub version: u32,
    /// The action that the frame belongs to.
    pub action_id: String,
    /// File name of the atlas image.
    pub atlas_png: String,
    /// Frame number, from zero, row by row.
    pub frame_index: u32,
    /// Frames per row of the atlas.
    pub columns: u32,
    /// Rows of the atlas.
    pub rows: u32,
    /// Width of a frame.
    pub frame_w: u32,
    /// Height of a frame.
    pub frame_h: u32,
    /// Show the frame mirrored.
    pub mirror: bool,
    /// Opacity of the whole frame, between zero and one.
    pub alpha: Scalar,
    /// The rate at which the player ticks.
    pub fps: u32,
}

impl Default for RenderFrameCmd {
    /// Fully opaque at the idle rate, everything else empty.
    fn default() -> (r: Self)
        ensures
            r.version == FRAME_CMD_VERSION,
            r.action_id@ == Seq::<char>::empty(),
            r.atlas_png@ == Seq::<char>::empty(),
            r.frame_index == 0,
            r.columns == 0,
            r.rows == 0,
            r.frame_w == 0,
            r.frame_h == 0,
            !r.mirror,
            r.alpha.bits == crate::scalar::ONE_BITS,
            r.fps == 6,
    {
        RenderFrameCmd {
            version: FRAME_CMD_VERSION,
            action_id: String::new(),
            atlas_png: String::new(),
            frame_index: 0,
            columns: 0,
            rows: 0,
            frame_w: 0,
            frame_h: 0,
            mirror: false,
            alpha: Scalar::one(),
            fps: FpsTier::default().fps(),
        }
    }
}

impl RenderFrameCmd {
    /// The frame lies on the grid of the atlas, and the grid is one.
    pub open spec fn on_grid(self) -> bool {
        &&& self.columns > 0
        &&& self.rows > 0
        &&& self.frame_w > 0
        &&& self.frame_h > 0
        &&& self.frame_index < self.columns * self.rows
    }

    /// The column in which the frame stands.
    pub open spec fn column(self) -> int {
        self.frame_index as int % self.columns as int
    }

    /// The row in which the frame stands.
    pub open spec fn row(self) -> int {
        self.frame_index as int / self.columns as int
    }

    /// The corner of the frame in the atlas.
    pub open spec fn place(self) -> (int, int) {
        (self.column() * self.frame_w, self.row() * self.frame_h)
    }

    /// The part of the atlas that holds the frame; none where it is off the grid.
    ///
    /// The corner of a frame on the grid has to be addressable in 32 bits.
    pub fn frame_rect(&self) -> (r: Option<FrameRect>)
        requires
            self.on_grid() ==> self.column() * self.frame_w <= u32::MAX && self.row()
                * self.frame_h <= u32::MAX,
        ensures
            r is Some <==> self.on_grid(),
            r matches Some(rect) ==> {
                &&& (rect.x as int, rect.y as int) == self.place()
                &&& rect.w == self.frame_w
                &&& rect.h == self.frame_h
            },
    {
        if self.columns == 0 || self.rows == 0 {
            return None;
        }
        if self.frame_w == 0 || self.frame_h == 0 {
            return None;
        }
        proof {
            let c = self.columns;
            let r = self.rows;
            assert(c as u64 * r as u64 <= u64::MAX) by (nonlinear_arith)
                requires
                    c <= u32::MAX,
                    r <= u32::MAX,
            ;
        }
        let capacity: u64 = self.columns as u64 * self.rows as u64;
        if self.frame_index as u64 >= capacity {
            return None;
        }
        let col: u32 = self.frame_index % self.columns;
        let row: u32 = self.frame_index / self.columns;
        proof {
            let c = col;
            let w = self.frame_w;
            assert(0 <= c * w) by (nonlinear_arith);
            let y = row;
            let h = self.frame_h;
            assert(0 <= y * h) by (nonlinear_arith);
        }
        Some(
            FrameRect {
                x: col * self.frame_w,
                y: row * self.frame_h,
                w: self.frame_w,
                h: self.frame_h,
            },
        )
    }
}

/// The rectangle of a frame on the grid lies inside the atlas.
pub proof fn lemma_frame_inside_atlas(cmd: RenderFrameCmd)
    requires
        cmd.on_grid(),
    ensures
        0 <= cmd.column() * cmd.frame_w,
        cmd.column() * cmd.frame_w + cmd.frame_w <= cmd.columns * cmd.frame_w,
        0 <= cmd.row() * cmd.frame_h,
        cmd.row() * cmd.frame_h + cmd.frame_h <= cmd.rows * cmd.frame_h,
{
    let (i, c, r) = (cmd.frame_index as int, cmd.columns as int, cmd.rows as int);
    let (w, h) = (cmd.frame_w as int, cmd.frame_h as int);
    let (x, y) = (cmd.column(), cmd.row());
    assert(0 <= x < c && 0 <= y < r) by (nonlinear_arith)
        requires
            0 <= i < c * r,
            c > 0,
            x == i % c,
            y == i / c,
    ;
    assert(0 <= x * w && x * w + w <= c * w) by (nonlinear_arith)
        requires
            0 <= x < c,
            w > 0,
    ;
    assert(0 <= y * h && y * h + h <= r * h) by (nonlinear_arith)
        requires
            0 <= y < r,
            h > 0,
    ;
}

/// Two frames of one atlas that differ in number do not overlap.
pub proof fn lemma_frames_disjoint(a: RenderFrameCmd, b: RenderFrameCmd)
    requires
        a.on_grid(),
        b.on_grid(),
        a.columns == b.columns,
        a.rows == b.rows,
        a.frame_w == b.frame_w,
        a.frame_h == b.frame_h,
        a.frame_index != b.frame_index,
    ensures
        a.column() * a.frame_w + a.frame_w <= b.column() * b.frame_w || b.column() * b.frame_w
            + b.frame_w <= a.column() * a.frame_w || a.row() * a.frame_h + a.frame_h <= b.row()
            * b.frame_h || b.row() * b.frame_h + b.frame_h <= a.row() * a.frame_h,
{
    let (i, j, c) = (a.frame_index as int, b.frame_index as int, a.columns as int);
    let (w, h) = (a.frame_w as int, a.frame_h as int);
    let (ax, ay, bx, by) = (a.column(), a.row(), b.column(), b.row());
    assert(i == ay * c + ax && j == by * c + bx) by (nonlinear_arith)
        requires
            c > 0,
            ax == i % c,
            ay == i / c,
            bx == j % c,
            by == j / c,
    ;
    assert(ax != bx || ay != by);
    if ax < bx {
        assert(ax * w + w <= bx * w) by (nonlinear_arith)
            requires
                ax < bx,
                w > 0,
        ;
    } else if bx < ax {
        assert(bx * w + w <= ax * w) by (nonlinear_arith)
            requires
                bx < ax,
                w > 0,
        ;
    } else if ay < by {
        assert(ay * h + h <= by * h) by (nonlinear_arith)
            requires
                ay < by,
                h > 0,
        ;
    } else {
        assert(by * h + h <= ay * h) by (nonlinear_arith)
            requires
                by < ay,
                h > 0,
        ;
    }
}

/// What the atlas says of one action.
#[derive(Debug, Clone, PartialEq, Eq)]
pub struct AtlasMeta {
    pub action_id: String,
    pub png: String,
    pub frame_w: u32,
    pub frame_h: u32,
    pub columns: u32,
    pub rows: u32,
    pub frame_count: u32,
}

/// A frame as the player puts it out.
#[derive(Debug, Clone, PartialEq, Eq)]
pub struct PlayerFrame {
    pub action_id: String,
    pub frame_index: u32,
    pub mirror: bool,
    pub action_fps: u32,
}

/// Joins a player frame with its atlas entry: the layout comes from the atlas, the
/// frame from the player, the rate from the tick; the frame is fully opaque.
pub fn frame_cmd(meta: &AtlasMeta, frame: &PlayerFrame, tier_fps: u32) -> (r: RenderFrameCmd)
    ensures
        r.version == FRAME_CMD_VERSION,
        r.action_id == frame.action_id,
        r.atlas_png == meta.png,
        r.frame_index == frame.frame_index,
        r.columns == meta.columns,
        r.rows == meta.rows,
        r.frame_w == meta.frame_w,
        r.frame_h == meta.frame_h,
        r.mirror == frame.mirror,
        r.alpha.bits == crate::scalar::ONE_BITS,
        r.fps == tier_fps,
{
    RenderFrameCmd {
        version: FRAME_CMD_VERSION,
        action_id: frame.action_id.clone(),
        atlas_png: meta.png.clone(),
        frame_index: frame.frame_index,
        columns: meta.columns,
        rows: meta.rows,
        frame_w: meta.frame_w,
        frame_h: meta.frame_h,
        mirror: frame.mirror,
        alpha: Scalar::one(),
        fps: tier_fps,
    }
}

/// An opacity held between `min` (at most 100) and 100 percent.
pub open spec fn opacity(percent: u32, min: u32) -> u32 {
    if percent > 100 {
        100
    } else if min <= 100 && percent < min {
        min
    } else if min > 100 {
        100
    } else {
        percent
    }
}

/// The opacity of the pet, in percent.
#[derive(Debug)]
pub struct FrameAlpha {
    percent: u32,
}

impl FrameAlpha {
    /// The opacity in percent.
    pub closed spec fn level(self) -> u32 {
        self.percent
    }

    /// Sets the opacity, held between `min` (at most 100) and 100 percent.
    pub fn set_percent(&mut self, percent: u32, min: u32)
        ensures
            final(self).level() == opacity(percent, min),
            final(self).level() <= 100,
    {
        let low: u32 = if min < 100 {
            min
        } else {
            100
        };
        self.percent = if percent < low {
            low
        } else if percent > 100 {
            100
        } else {
            percent
        };
    }

    /// The opacity in percent.
    pub fn percent(&self) -> (r: u32)
        ensures
            r == self.level(),
    {
        self.percent
    }
}

impl Default for FrameAlpha {
    /// Fully opaque.
    fn default() -> (r: Self)
        ensures
            r.level() == 100,
    {
        FrameAlpha { percent: 100 }
    }
}

/// The kinds of particles.
#[derive(Debug, Clone, Copy, PartialEq, Eq, Structural)]
pub enum ParticleKind {
    Heart,
    Star,
    Dust,
    Tear,
    Anger,
}

impl Default for ParticleKind {
    fn default() -> (r: Self)
        ensures
            r == ParticleKind::Heart,
    {
        ParticleKind::Heart
    }
}

/// A burst of particles.
#[derive(Debug, Clone, PartialEq, Eq)]
pub struct ParticleCmd {
    /// Layout version.
    pub version: u32,
    /// What kind of particles.
    pub kind: ParticleKind,
    /// How many.
    pub count: u32,
}

impl Default for ParticleCmd {
    /// Twelve hearts.
    fn default() -> (r: Self)
        ensures
            r.version == PARTICLE_CMD_VERSION,
            r.kind == ParticleKind::Heart,
            r.count == 12,
    {
        ParticleCmd { version: PARTICLE_CMD_VERSION, kind: ParticleKind::Heart, count: 12 }
    }
}

/// How many particles a burst of `count` holds.
pub open spec fn burst(count: u32) -> u32 {
    if count == 0 {
        1
    } else if count > PARTICLE_BURST_CAP {
        PARTICLE_BURST_CAP
    } else {
        count
    }
}

/// A burst of `count` particles, held between one and [`PARTICLE_BURST_CAP`].
pub fn particle_cmd(kind: ParticleKind, count: u32) -> (r: ParticleCmd)
    ensures
        r.version == PARTICLE_CMD_VERSION,
        r.kind == kind,
        r.count == burst(count),
{
    let count: u32 = if count == 0 {
        1
    } else if count > PARTICLE_BURST_CAP {
        PARTICLE_BURST_CAP
    } else {
        count
    };
    ParticleCmd { version: PARTICLE_CMD_VERSION, kind, count }
}

/// A file name that stays inside the atlas directory: not empty, no separator, no
/// parent reference, no drive.
pub open spec fn plain_file_name(name: Seq<char>) -> bool {
    &&& name.len() > 0
    &&& !name.contains('/')
    &&& !name.contains('\\')
    &&& !crate::text::has_pair(name, '.')
    &&& !name.contains(':')
}

/// Accepts exactly the plain file names; the refusal names the file.
pub fn validate_atlas_name(name: &str) -> (r: Result<(), String>)
    ensures
        r is Ok <==> plain_file_name(name@),
        r matches Err(text) ==> text@ == "非法图集文件名："@ + name@,
{
    if name.is_empty() || text::has_char(name, '/') || text::has_char(name, '\\')
        || text::has_double(name, '.') || text::has_char(name, ':') {
        return Err(text::joined("非法图集文件名：", name));
    }
    Ok(())
}

/// Frames are numbered along the rows: in front of a frame stand the frames of the rows above it
/// and those to its left, each row as long as the atlas has columns. Its corner is as many frames
/// to the right and down.
pub proof fn lemma_frames_are_numbered_by_rows(cmd: RenderFrameCmd)
    requires
        cmd.on_grid(),
    ensures
        0 <= cmd.column() < cmd.columns,
        0 <= cmd.row() < cmd.rows,
        cmd.row() * cmd.columns + cmd.column() == cmd.frame_index,
        ({
            let (x, y) = cmd.place();
            &&& x % cmd.frame_w as int == 0 && x / cmd.frame_w as int == cmd.column()
            &&& y % cmd.frame_h as int == 0 && y / cmd.frame_h as int == cmd.row()
        }),
{
    let (i, c, r) = (cmd.frame_index as int, cmd.columns as int, cmd.rows as int);
    let (x, y) = (cmd.column(), cmd.row());
    let (w, h) = (cmd.frame_w as int, cmd.frame_h as int);
    assert(0 <= x < c && 0 <= y < r && y * c + x == i) by (nonlinear_arith)
        requires
            0 <= i < c * r,
            c > 0,
            x == i % c,
            y == i / c,
    ;
    assert((x * w) % w == 0 && (x * w) / w == x) by (nonlinear_arith)
        requires
            w > 0,
    ;
    assert((y * h) % h == 0 && (y * h) / h == y) by (nonlinear_arith)
        requires
            h > 0,
    ;
}

/// An atlas holds exactly the frames that its rows and columns have room for.
pub proof fn lemma_grid_has_room_for_its_frames(cmd: RenderFrameCmd)
    requires
        cmd.frame_w > 0,
        cmd.frame_h > 0,
    ensures
        cmd.on_grid() <==> cmd.frame_index < cmd.columns * cmd.rows,
{
    let (c, r) = (cmd.columns as int, cmd.rows as int);
    assert(c == 0 || r == 0 ==> c * r == 0) by (nonlinear_arith);
}

/// An opacity is taken as it is between its least value and a hundred percent; beyond, the nearer
/// end counts, and a least value beyond a hundred counts as a hundred.
pub proof fn lemma_opacity_is_held(percent: u32, min: u32)
    ensures
        min <= percent <= 100 ==> opacity(percent, min) == percent,
        percent < min <= 100 ==> opacity(percent, min) == min,
        percent > 100 ==> opacity(percent, min) == 100,
        min > 100 ==> opacity(percent, min) == 100,
{
}

/// A burst holds as many particles as it is asked for, but at least one and at most sixty.
pub proof fn lemma_bursts_are_held(count: u32)
    ensures
        1 <= count <= 60 ==> burst(count) == count,
        1 <= burst(count) <= 60,
        count > 60 ==> burst(count) == 60,
{
}

/// The rates are apart, each with a number of frames of its own, and go up from two to sixty.
pub proof fn lemma_rates_go_up(a: FpsTier, b: FpsTier)
    ensures
        a.rate() == b.rate() ==> a == b,
        FpsTier::Fps2.rate() == 2,
        FpsTier::Fps2.rate() * 2 == FpsTier::Fps4.rate(),
        FpsTier::Fps2.rate() * 3 == FpsTier::Fps6.rate(),
        FpsTier::Fps15.rate() * 2 == FpsTier::Fps30.rate(),
        FpsTier::Fps15.rate() * 4 == FpsTier::Fps60.rate(),
        FpsTier::Fps60.rate() == 60,
{
}

/// A file name is accepted exactly where it has a character, none of them separates folders or
/// names a drive, and no two dots stand together.
pub proof fn lemma_accepted_names_stay_in_their_folder(name: Seq<char>)
    ensures
        plain_file_name(name) ==> {
            &&& name.len() > 0
            &&& forall|i: int|
                0 <= i < name.len() ==> (#[trigger] name[i]) != '/' && name[i] != '\\' && name[i]
                    != ':'
            &&& forall|i: int|
                0 <= i < name.len() - 1 ==> !((#[trigger] name[i]) == '.' && name[i + 1] == '.')
        },
        name.len() > 0 && (forall|i: int|
            0 <= i < name.len() ==> (#[trigger] name[i]) != '/' && name[i] != '\\' && name[i]
                != ':' && name[i] != '.') ==> plain_file_name(name),
{
    if plain_file_name(name) {
        assert forall|i: int| 0 <= i < name.len() implies (#[trigger] name[i]) != '/' && name[i]
            != '\\' && name[i] != ':' by {
            assert(name.contains(name[i]));
        }
    }
}

} // verus!
