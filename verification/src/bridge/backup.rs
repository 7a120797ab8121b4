//! Save backups: which files count, which may be imported, in which order they are
//! offered.

use crate::text;
use vstd::prelude::*;

verus! {

/// The directory that holds the save.
pub const SAVE_DIR_NAME: &'static str = "DesktopPet";

/// The file that holds the save.
pub const SAVE_FILE_NAME: &'static str = "save.json";

/// What a backup is a backup of.
#[derive(Clone, Copy, Debug, PartialEq, Eq, Structural)]
pub enum SaveBackupKind {
    /// The save as it was last written in full.
    LastGood,
    /// A save that could not be read.
    Corrupt,
    /// A save of a later version.
    Future,
    /// A save of the first version, not brought over yet.
    V1Migration,
}

impl SaveBackupKind {
    /// Whether a backup of this kind may be imported.
    pub open spec fn can_import(self) -> bool {
        self == SaveBackupKind::LastGood || self == SaveBackupKind::Corrupt
    }

    /// Why a backup of this kind may not be imported.
    pub open spec fn reason(self) -> Option<Seq<char>> {
        match self {
            SaveBackupKind::LastGood | SaveBackupKind::Corrupt => None,
            SaveBackupKind::Future => Some("futureVersion"@),
            SaveBackupKind::V1Migration => Some("pendingMigration"@),
        }
    }

    /// The place of the kind among the kinds.
    pub open spec fn rank(self) -> u8 {
        match self {
            SaveBackupKind::LastGood => 0,
            SaveBackupKind::Corrupt => 1,
            SaveBackupKind::Future => 2,
            SaveBackupKind::V1Migration => 3,
        }
    }

    /// Whether a backup of this kind may be imported.
    pub fn importable(self) -> (r: bool)
        ensures
            r == self.can_import(),
    {
        match self {
            SaveBackupKind::LastGood | SaveBackupKind::Corrupt => true,
            SaveBackupKind::Future | SaveBackupKind::V1Migration => false,
        }
    }

    /// Why a backup of this kind may not be imported.
    pub fn blocked_reason(self) -> (r: Option<&'static str>)
        ensures
            r matches Some(word) ==> self.reason() == Some(word@),
            r is None ==> self.reason() is None,
    {
        match self {
            SaveBackupKind::LastGood | SaveBackupKind::Corrupt => None,
            SaveBackupKind::Future => Some("futureVersion"),
            SaveBackupKind::V1Migration => Some("pendingMigration"),
        }
    }
}

/// A kind may be imported exactly where there is no reason against it.
pub proof fn lemma_blocked_means_reason(kind: SaveBackupKind)
    ensures
        kind.can_import() <==> kind.reason() is None,
{
}

/// The place of a kind among the kinds.
pub fn kind_rank(kind: SaveBackupKind) -> (r: u8)
    ensures
        r == kind.rank(),
{
    match kind {
        SaveBackupKind::LastGood => 0,
        SaveBackupKind::Corrupt => 1,
        SaveBackupKind::Future => 2,
        SaveBackupKind::V1Migration => 3,
    }
}

/// A name without a path: no separator and no drive.
pub open spec fn bare(name: Seq<char>) -> bool {
    !name.contains('/') && !name.contains('\\') && !name.contains(':')
}

/// What stands between `save.` and `.json` in a name.
pub open spec fn stem(name: Seq<char>) -> Option<Seq<char>> {
    if crate::text::starts(name, "save."@) {
        let rest = name.subrange("save."@.len() as int, name.len() as int);
        if crate::text::ends(rest, ".json"@) {
            Some(rest.subrange(0, rest.len() - ".json"@.len()))
        } else {
            None
        }
    } else {
        None
    }
}

/// The kind of backup that a file name stands for.
pub open spec fn kind_of(name: Seq<char>) -> Option<SaveBackupKind> {
    if !bare(name) {
        None
    } else if name == "save.json.bak"@ {
        Some(SaveBackupKind::LastGood)
    } else if name == "save.json.v1bak"@ {
        Some(SaveBackupKind::V1Migration)
    } else {
        match stem(name) {
            Some(middle) => if crate::text::starts(middle, "corrupt."@) {
                Some(SaveBackupKind::Corrupt)
            } else if crate::text::starts(middle, "future."@) {
                Some(SaveBackupKind::Future)
            } else {
                None
            },
            None => None,
        }
    }
}

/// The kind of backup that a file name stands for; none where it is no backup or no
/// bare name.
pub fn classify_backup(name: &str) -> (r: Option<SaveBackupKind>)
    ensures
        r == kind_of(name@),
{
    if text::has_char(name, '/') || text::has_char(name, '\\') || text::has_char(name, ':') {
        return None;
    }
    if text::equal(name, "save.json.bak") {
        return Some(SaveBackupKind::LastGood);
    }
    if text::equal(name, "save.json.v1bak") {
        return Some(SaveBackupKind::V1Migration);
    }
    if !text::starts_with(name, "save.") {
        return None;
    }
    proof {
        reveal_strlit("save.");
        reveal_strlit(".json");
    }
    let rest: String = text::slice(name, 5, name.unicode_len());
    if !text::ends_with(rest.as_str(), ".json") {
        return None;
    }
    let middle: String = text::slice(rest.as_str(), 0, rest.as_str().unicode_len() - 5);
    if text::starts_with(middle.as_str(), "corrupt.") {
        return Some(SaveBackupKind::Corrupt);
    }
    if text::starts_with(middle.as_str(), "future.") {
        return Some(SaveBackupKind::Future);
    }
    None
}

/// Whatever counts as a backup is a bare name: it cannot lead out of its directory.
pub proof fn lemma_backups_are_bare(name: Seq<char>)
    ensures
        kind_of(name) is Some ==> bare(name),
        kind_of("save.json"@) is None,
{
    reveal_strlit("save.json");
    reveal_strlit("save.json.bak");
    reveal_strlit("save.json.v1bak");
    reveal_strlit("save.");
    reveal_strlit(".json");
    let rest = "save.json"@.subrange(5, 9);
    assert(rest.len() == 4);
    assert("save.json"@.len() == 9 && "save.json.bak"@.len() == 13 && "save.json.v1bak"@.len()
        == 15);
}

/// A file of the save directory.
#[derive(Debug, Clone, PartialEq, Eq)]
pub struct FileEntry {
    pub name: String,
    /// Size in bytes; zero where it cannot be read.
    pub size_bytes: u64,
}

/// A backup as it is offered.
#[derive(Debug, Clone, PartialEq, Eq)]
pub struct SaveBackup {
    /// File name without a path.
    pub file: String,
    pub kind: SaveBackupKind,
    pub size_bytes: u64,
    pub importable: bool,
    pub blocked_reason: Option<&'static str>,
}

/// The mathematical content of a [`SaveBackup`].
pub struct BackupView {
    pub file: Seq<char>,
    pub kind: SaveBackupKind,
    pub size_bytes: u64,
}

impl View for SaveBackup {
    type V = BackupView;

    open spec fn view(&self) -> BackupView {
        BackupView { file: self.file@, kind: self.kind, size_bytes: self.size_bytes }
    }
}

impl SaveBackup {
    /// Whether it may be imported, and why not, are as its kind says.
    pub open spec fn wf(self) -> bool {
        &&& self.importable == self.kind.can_import()
        &&& self.blocked_reason matches Some(word) ==> self.kind.reason() == Some(word@)
        &&& self.blocked_reason is None ==> self.kind.reason() is None
    }
}

impl BackupView {
    /// Whether this backup is offered before `other`: what may be imported first,
    /// after that by kind, after that by name from the last to the first, so that of
    /// two time stamps the later one comes first.
    pub open spec fn leads(self, other: BackupView) -> bool {
        if self.kind.can_import() != other.kind.can_import() {
            self.kind.can_import()
        } else if self.kind.rank() != other.kind.rank() {
            self.kind.rank() < other.kind.rank()
        } else {
            crate::text::before(other.file, self.file)
        }
    }
}

/// The backups of a list.
pub open spec fn backup_views(list: Seq<SaveBackup>) -> Seq<BackupView> {
    Seq::new(list.len(), |i: int| list[i]@)
}

/// `list` with `item` placed behind everything that it does not lead.
pub open spec fn placed(list: Seq<BackupView>, item: BackupView) -> Seq<BackupView>
    decreases list.len(),
{
    if list.len() > 0 && item.leads(list.last()) {
        placed(list.drop_last(), item).push(list.last())
    } else {
        list.push(item)
    }
}

/// The backups among `entries`, in the order in which they are offered; what ties
/// keeps the order of `entries`.
pub open spec fn offered(entries: Seq<FileEntry>) -> Seq<BackupView>
    decreases entries.len(),
{
    if entries.len() == 0 {
        Seq::empty()
    } else {
        let before = offered(entries.drop_last());
        let last = entries.last();
        match kind_of(last.name@) {
            Some(kind) => placed(
                before,
                BackupView { file: last.name@, kind, size_bytes: last.size_bytes },
            ),
            None => before,
        }
    }
}

/// How far from the front `item` is placed in `list`.
pub open spec fn place_of(list: Seq<BackupView>, item: BackupView) -> int
    decreases list.len(),
{
    if list.len() > 0 && item.leads(list.last()) {
        place_of(list.drop_last(), item)
    } else {
        list.len() as int
    }
}

proof fn lemma_placed_is_insert(list: Seq<BackupView>, item: BackupView)
    ensures
        0 <= place_of(list, item) <= list.len(),
        placed(list, item) == list.insert(place_of(list, item), item),
    decreases list.len(),
{
    if list.len() > 0 && item.leads(list.last()) {
        lemma_placed_is_insert(list.drop_last(), item);
        let at = place_of(list.drop_last(), item);
        assert(list.drop_last().insert(at, item).push(list.last()) =~= list.insert(at, item));
    } else {
        assert(list.push(item) =~= list.insert(list.len() as int, item));
    }
}

fn leads(a: &SaveBackup, b: &SaveBackup) -> (r: bool)
    ensures
        r == a@.leads(b@),
{
    if a.kind.importable() != b.kind.importable() {
        a.kind.importable()
    } else if kind_rank(a.kind) != kind_rank(b.kind) {
        kind_rank(a.kind) < kind_rank(b.kind)
    } else {
        text::comes_before(b.file.as_str(), a.file.as_str())
    }
}

fn place(list: &mut Vec<SaveBackup>, item: SaveBackup)
    ensures
        backup_views(final(list)@) == placed(backup_views(old(list)@), item@),
        final(list)@.len() == old(list)@.len() + 1,
        item.wf() && (forall|i: int| 0 <= i < old(list)@.len() ==> (#[trigger] old(list)@[i]).wf())
            ==> (forall|i: int| 0 <= i < final(list)@.len() ==> (#[trigger] final(list)@[i]).wf()),
{
    let ghost views = backup_views(list@);
    let mut at: usize = list.len();
    assert(views.subrange(0, at as int) =~= views);
    while at > 0 && leads(&item, &list[at - 1])
        invariant
            at <= list@.len(),
            list@ == old(list)@,
            views == backup_views(list@),
            place_of(views, item@) == place_of(views.subrange(0, at as int), item@),
        decreases at,
    {
        let ghost head = views.subrange(0, at as int);
        assert(head.drop_last() =~= views.subrange(0, at - 1));
        at = at - 1;
    }
    proof {
        lemma_placed_is_insert(views, item@);
        if at > 0 {
            assert(views.subrange(0, at as int).last() == list@[at - 1]@);
        }
        assert(place_of(views, item@) == at);
    }
    list.insert(at, item);
    assert(backup_views(list@) =~= views.insert(at as int, item@));
}

/// The backups among the files of the save directory, in the order in which they are
/// offered.
pub fn list_save_backups(entries: Vec<FileEntry>) -> (r: Vec<SaveBackup>)
    ensures
        backup_views(r@) == offered(entries@),
        forall|i: int| 0 <= i < r@.len() ==> (#[trigger] r@[i]).wf(),
{
    let mut out: Vec<SaveBackup> = Vec::new();
    let mut i: usize = 0;
    assert(backup_views(out@) =~= Seq::empty());
    while i < entries.len()
        invariant
            i <= entries@.len(),
            backup_views(out@) == offered(entries@.subrange(0, i as int)),
            forall|k: int| 0 <= k < out@.len() ==> (#[trigger] out@[k]).wf(),
        decreases entries@.len() - i,
    {
        let ghost head = entries@.subrange(0, i + 1);
        assert(head.drop_last() =~= entries@.subrange(0, i as int));
        assert(head.last() == entries@[i as int]);
        let entry: &FileEntry = &entries[i];
        if let Some(kind) = classify_backup(entry.name.as_str()) {
            let item: SaveBackup = SaveBackup {
                file: entry.name.clone(),
                kind,
                size_bytes: entry.size_bytes,
                importable: kind.importable(),
                blocked_reason: kind.blocked_reason(),
            };
            place(&mut out, item);
        }
        i = i + 1;
    }
    assert(entries@.subrange(0, i as int) =~= entries@);
    out
}

/// Nothing in the list is led by something behind it.
pub open spec fn in_order(list: Seq<BackupView>) -> bool {
    forall|i: int, j: int| 0 <= i < j < list.len() ==> !(#[trigger] list[j]).leads(#[trigger] list[i])
}

proof fn lemma_leads_transitive(a: BackupView, b: BackupView, c: BackupView)
    requires
        a.leads(b),
        !c.leads(b),
    ensures
        a.leads(c),
{
    if a.kind.can_import() == b.kind.can_import() && b.kind.can_import() == c.kind.can_import()
        && a.kind.rank() == b.kind.rank() && b.kind.rank() == c.kind.rank() {
        crate::text::lemma_before_total(b.file, c.file);
        if b.file != c.file {
            crate::text::lemma_before_transitive(c.file, b.file, a.file);
        }
    }
}

proof fn lemma_placed_in_order(list: Seq<BackupView>, item: BackupView)
    requires
        in_order(list),
    ensures
        in_order(placed(list, item)),
    decreases list.len(),
{
    lemma_placed_is_insert(list, item);
    lemma_place_splits(list, item);
    let at = place_of(list, item);
    let next = list.insert(at, item);
    assert forall|i: int, j: int| 0 <= i < j < next.len() implies !(#[trigger] next[j]).leads(
        #[trigger] next[i],
    ) by {
        if j == at {
            assert(next[i] == list[i]);
        } else if i == at {
            let c = list[j - 1];
            assert(item.leads(c));
            lemma_leads_asymmetric(item, c);
        } else {
            let (x, y) = (if i < at { i } else { i - 1 }, if j < at { j } else { j - 1 });
            assert(next[i] == list[x] && next[j] == list[y]);
        }
    }
}

proof fn lemma_leads_asymmetric(a: BackupView, b: BackupView)
    requires
        a.leads(b),
    ensures
        !b.leads(a),
{
    crate::text::lemma_before_total(a.file, b.file);
}

proof fn lemma_place_splits(list: Seq<BackupView>, item: BackupView)
    requires
        in_order(list),
    ensures
        0 <= place_of(list, item) <= list.len(),
        forall|k: int| 0 <= k < place_of(list, item) ==> !item.leads(#[trigger] list[k]),
        forall|k: int| place_of(list, item) <= k < list.len() ==> item.leads(#[trigger] list[k]),
    decreases list.len(),
{
    if list.len() > 0 && item.leads(list.last()) {
        let head = list.drop_last();
        assert forall|i: int, j: int| 0 <= i < j < head.len() implies !(#[trigger] head[j]).leads(
            #[trigger] head[i],
        ) by {
            assert(!list[j].leads(list[i]));
        }
        lemma_place_splits(head, item);
        assert forall|k: int| 0 <= k < place_of(list, item) implies !item.leads(
            #[trigger] list[k],
        ) by {
            assert(!item.leads(head[k]));
        }
        assert forall|k: int| place_of(list, item) <= k < list.len() implies item.leads(
            #[trigger] list[k],
        ) by {
            if k < head.len() {
                assert(item.leads(head[k]));
            }
        }
    } else if list.len() > 0 {
        assert forall|k: int| 0 <= k < list.len() implies !item.leads(#[trigger] list[k]) by {
            if item.leads(list[k]) && k < list.len() - 1 {
                lemma_leads_transitive(item, list[k], list.last());
            }
        }
    }
}

/// Backups are offered in order: nothing stands before what leads it.
pub proof fn lemma_offered_in_order(entries: Seq<FileEntry>)
    ensures
        in_order(offered(entries)),
    decreases entries.len(),
{
    if entries.len() > 0 {
        lemma_offered_in_order(entries.drop_last());
        let last = entries.last();
        if let Some(kind) = kind_of(last.name@) {
            lemma_placed_in_order(
                offered(entries.drop_last()),
                BackupView { file: last.name@, kind, size_bytes: last.size_bytes },
            );
        }
    }
}

/// The backups among `entries`, in the order of `entries`.
pub open spec fn recognised(entries: Seq<FileEntry>) -> Seq<BackupView>
    decreases entries.len(),
{
    if entries.len() == 0 {
        Seq::empty()
    } else {
        let last = entries.last();
        match kind_of(last.name@) {
            Some(kind) => recognised(entries.drop_last()).push(
                BackupView { file: last.name@, kind, size_bytes: last.size_bytes },
            ),
            None => recognised(entries.drop_last()),
        }
    }
}

/// Exactly the backups among the files are offered, each as often as it is there.
pub proof fn lemma_offered_is_recognised(entries: Seq<FileEntry>)
    ensures
        offered(entries).to_multiset() == recognised(entries).to_multiset(),
    decreases entries.len(),
{
    broadcast use vstd::seq_lib::group_to_multiset_ensures;

    if entries.len() > 0 {
        lemma_offered_is_recognised(entries.drop_last());
        let last = entries.last();
        if let Some(kind) = kind_of(last.name@) {
            let item = BackupView { file: last.name@, kind, size_bytes: last.size_bytes };
            let before = offered(entries.drop_last());
            lemma_placed_is_insert(before, item);
            let at = place_of(before, item);
            vstd::seq_lib::to_multiset_insert(before, at, item);
        }
    }
}

/// The answer to a request to import `file`.
pub open spec fn import_refusal(file: Seq<char>, present: bool) -> Option<Seq<char>> {
    match kind_of(file) {
        None => Some("不是可识别的存档备份文件名："@ + file),
        Some(SaveBackupKind::Future) => Some("该备份来自更高版本的存档，无法导入"@),
        Some(SaveBackupKind::V1Migration) => Some(
            "v1 旧档需先迁移（归 S8-M7），本版本不支持导入"@,
        ),
        Some(_) => if present {
            None
        } else {
            Some("备份文件不存在："@ + file)
        },
    }
}

/// Whether `file` may be imported from the save directory: it has to be a backup, of
/// a kind that may be imported, and `present` there as a file. Gives the file name,
/// or the reason in words.
pub fn resolve_backup_path(file: &str, present: bool) -> (r: Result<String, String>)
    ensures
        r is Ok <==> import_refusal(file@, present) is None,
        r matches Ok(name) ==> name@ == file@,
        r matches Err(words) ==> import_refusal(file@, present) == Some(words@),
{
    match classify_backup(file) {
        None => Err(text::joined("不是可识别的存档备份文件名：", file)),
        Some(SaveBackupKind::Future) => Err(
            "该备份来自更高版本的存档，无法导入".to_owned(),
        ),
        Some(SaveBackupKind::V1Migration) => Err(
            "v1 旧档需先迁移（归 S8-M7），本版本不支持导入".to_owned(),
        ),
        Some(_) => {
            if present {
                Ok(file.to_owned())
            } else {
                Err(text::joined("备份文件不存在：", file))
            }
        },
    }
}

/// Only bare names of backups that may be imported are ever let through.
pub proof fn lemma_imports_stay_inside(file: Seq<char>, present: bool)
    requires
        import_refusal(file, present) is None,
    ensures
        present,
        bare(file),
        kind_of(file) is Some,
        kind_of(file)->0.can_import(),
{
}

/// How the save stands.
#[derive(Debug, Clone, PartialEq, Eq)]
pub struct SaveStatusInfo {
    /// How loading went, in a word.
    pub state: String,
    pub healthy: bool,
    pub needs_notice: bool,
    pub writable: bool,
    /// Wall clock of the last write, in milliseconds.
    pub last_seen_ms: i64,
}

impl Default for SaveStatusInfo {
    /// Nothing is known, which is worth a notice.
    fn default() -> (r: Self)
        ensures
            r.state@ == "unknown"@,
            !r.healthy,
            r.needs_notice,
            !r.writable,
            r.last_seen_ms == 0,
    {
        SaveStatusInfo {
            state: "unknown".to_owned(),
            healthy: false,
            needs_notice: true,
            writable: false,
            last_seen_ms: 0,
        }
    }
}

/// Where the core loop leaves how the save stands.
#[derive(Debug)]
pub struct SaveStatusHandle {
    info: SaveStatusInfo,
}

impl SaveStatusHandle {
    /// How the save stands.
    pub closed spec fn status(self) -> SaveStatusInfo {
        self.info
    }

    /// How the save stands.
    pub fn get(&self) -> (r: SaveStatusInfo)
        ensures
            r == self.status(),
    {
        SaveStatusInfo {
            state: self.info.state.clone(),
            healthy: self.info.healthy,
            needs_notice: self.info.needs_notice,
            writable: self.info.writable,
            last_seen_ms: self.info.last_seen_ms,
        }
    }

    /// Notes how the save stands.
    pub fn set(&mut self, info: SaveStatusInfo)
        ensures
            final(self).status() == info,
    {
        self.info = info;
    }

    /// Notes the time of a write; nothing else changes.
    pub fn note_flush(&mut self, last_seen_ms: i64)
        ensures
            final(self).status() == (SaveStatusInfo { last_seen_ms, ..old(self).status() }),
    {
        self.info.last_seen_ms = last_seen_ms;
    }
}

impl Default for SaveStatusHandle {
    fn default() -> (r: Self)
        ensures
            r.status().state@ == "unknown"@,
            !r.status().healthy,
            r.status().needs_notice,
            !r.status().writable,
            r.status().last_seen_ms == 0,
    {
        SaveStatusHandle { info: SaveStatusInfo::default() }
    }
}

/// The last good save and the save of the first version go by their full names.
pub proof fn lemma_fixed_names(name: Seq<char>)
    ensures
        kind_of(name) == Some(SaveBackupKind::LastGood) <==> name == "save.json.bak"@,
        kind_of(name) == Some(SaveBackupKind::V1Migration) <==> name == "save.json.v1bak"@,
{
    reveal_strlit("save.json.bak");
    reveal_strlit("save.json.v1bak");
    assert("save.json.bak"@.len() == 13 && "save.json.v1bak"@.len() == 15);
    assert(bare("save.json.bak"@)) by {
        assert(forall|i: int|
            0 <= i < 13 ==> (#[trigger] "save.json.bak"@[i]) != '/' && "save.json.bak"@[i] != '\\'
                && "save.json.bak"@[i] != ':');
    }
    assert(bare("save.json.v1bak"@)) by {
        assert(forall|i: int|
            0 <= i < 15 ==> (#[trigger] "save.json.v1bak"@[i]) != '/' && "save.json.v1bak"@[i]
                != '\\' && "save.json.v1bak"@[i] != ':');
    }
}

/// A save that could not be read is set aside as `save.corrupt.`, anything, `.json`; a save of
/// a later version as `save.future.`, anything, `.json`; nothing else counts as either.
pub proof fn lemma_marked_names(name: Seq<char>, mark: Seq<char>)
    requires
        bare(name),
    ensures
        name == "save.corrupt."@ + mark + ".json"@ ==> kind_of(name) == Some(
            SaveBackupKind::Corrupt,
        ),
        name == "save.future."@ + mark + ".json"@ ==> kind_of(name) == Some(
            SaveBackupKind::Future,
        ),
        kind_of(name) == Some(SaveBackupKind::Corrupt) ==> exists|m: Seq<char>|
            name == #[trigger] ("save.corrupt."@ + m + ".json"@),
        kind_of(name) == Some(SaveBackupKind::Future) ==> exists|m: Seq<char>|
            name == #[trigger] ("save.future."@ + m + ".json"@),
{
    reveal_strlit("save.json.bak");
    reveal_strlit("save.json.v1bak");
    reveal_strlit("save.corrupt.");
    reveal_strlit("save.future.");
    reveal_strlit("corrupt.");
    reveal_strlit("future.");
    reveal_strlit("save.");
    reveal_strlit(".json");
    let (corrupt, future) = ("save.corrupt."@, "save.future."@);
    assert(corrupt =~= "save."@ + "corrupt."@);
    assert(future =~= "save."@ + "future."@);
    assert("corrupt."@[0] == 'c' && "future."@[0] == 'f');
    assert("save.json.bak"@.last() == 'k' && "save.json.v1bak"@.last() == 'k' && ".json"@.last()
        == 'n');
    assert(crate::text::starts(name, "save."@) ==> name =~= "save."@ + name.subrange(
        5,
        name.len() as int,
    ));
    if name == corrupt + mark + ".json"@ {
        assert(name.last() == 'n');
        assert(name =~= "save."@ + ("corrupt."@ + mark) + ".json"@);
        lemma_stem_is_the_middle("corrupt."@ + mark, name);
        assert(("corrupt."@ + mark).subrange(0, 8) =~= "corrupt."@);
    }
    if name == future + mark + ".json"@ {
        assert(name.last() == 'n');
        assert(name =~= "save."@ + ("future."@ + mark) + ".json"@);
        lemma_stem_is_the_middle("future."@ + mark, name);
        assert(("future."@ + mark).subrange(0, 7) =~= "future."@);
        assert(("future."@ + mark)[0] == 'f');
        if crate::text::starts("future."@ + mark, "corrupt."@) {
            assert(("future."@ + mark).subrange(0, 8)[0] == 'f');
        }
    }
    if kind_of(name) == Some(SaveBackupKind::Corrupt) {
        let middle = stem(name)->0;
        let m = middle.subrange(8, middle.len() as int);
        lemma_stem_gives_the_name(name);
        assert(middle =~= "corrupt."@ + m);
        assert(name =~= corrupt + m + ".json"@);
    }
    if kind_of(name) == Some(SaveBackupKind::Future) {
        let middle = stem(name)->0;
        let m = middle.subrange(7, middle.len() as int);
        lemma_stem_gives_the_name(name);
        assert(middle =~= "future."@ + m);
        assert(name =~= future + m + ".json"@);
    }
}

proof fn lemma_stem_is_the_middle(middle: Seq<char>, name: Seq<char>)
    requires
        name == "save."@ + middle + ".json"@,
    ensures
        stem(name) == Some(middle),
{
    reveal_strlit("save.");
    reveal_strlit(".json");
    assert(name.subrange(0, 5) =~= "save."@);
    let rest = name.subrange(5, name.len() as int);
    assert(rest =~= middle + ".json"@);
    assert(rest.subrange(rest.len() - 5, rest.len() as int) =~= ".json"@);
    assert(rest.subrange(0, rest.len() - 5) =~= middle);
}

proof fn lemma_stem_gives_the_name(name: Seq<char>)
    requires
        stem(name) is Some,
    ensures
        name == "save."@ + stem(name)->0 + ".json"@,
{
    reveal_strlit("save.");
    reveal_strlit(".json");
    let rest = name.subrange(5, name.len() as int);
    assert(rest =~= stem(name)->0 + ".json"@);
    assert(name =~= "save."@ + rest);
}

/// What may be imported is offered before what may not. Among either, the last good save comes
/// before unreadable ones, and a save of a later version before one of the first; of one kind
/// the later name comes first.
pub proof fn lemma_order_of_offers(a: BackupView, b: BackupView)
    ensures
        (a.kind == SaveBackupKind::LastGood || a.kind == SaveBackupKind::Corrupt) && (b.kind
            == SaveBackupKind::Future || b.kind == SaveBackupKind::V1Migration) ==> a.leads(b)
            && !b.leads(a),
        a.kind == SaveBackupKind::LastGood && b.kind == SaveBackupKind::Corrupt ==> a.leads(b)
            && !b.leads(a),
        a.kind == SaveBackupKind::Future && b.kind == SaveBackupKind::V1Migration ==> a.leads(b)
            && !b.leads(a),
        a.kind == b.kind ==> (a.leads(b) <==> crate::text::before(b.file, a.file)),
{
}

/// Only a backup of a later version and one of the first may not be imported, each for its own
/// reason.
pub proof fn lemma_reasons_against_import(kind: SaveBackupKind)
    ensures
        kind.can_import() <==> kind != SaveBackupKind::Future && kind
            != SaveBackupKind::V1Migration,
        kind.reason() == Some("futureVersion"@) <==> kind == SaveBackupKind::Future,
        kind.reason() == Some("pendingMigration"@) <==> kind == SaveBackupKind::V1Migration,
{
    reveal_strlit("futureVersion");
    reveal_strlit("pendingMigration");
    assert("futureVersion"@.len() != "pendingMigration"@.len());
}

/// The backups of two lists of files are those of the one and those of the other, and a file
/// that is a backup is offered under its own name with its own size.
pub proof fn lemma_backups_add_up(a: Seq<FileEntry>, b: Seq<FileEntry>, entry: FileEntry)
    ensures
        recognised(a + b) == recognised(a) + recognised(b),
        match kind_of(entry.name@) {
            Some(kind) => {
                let list = recognised(seq![entry]);
                &&& list.len() == 1
                &&& list[0].file == entry.name@
                &&& list[0].size_bytes == entry.size_bytes
                &&& list[0].kind == kind
            },
            None => recognised(seq![entry]).len() == 0,
        },
    decreases b.len(),
{
    reveal_with_fuel(recognised, 2);
    assert(seq![entry].drop_last() =~= Seq::empty());
    if b.len() == 0 {
        assert(a + b =~= a);
        assert(recognised(a) + recognised(b) =~= recognised(a));
    } else {
        assert((a + b).drop_last() =~= a + b.drop_last());
        assert((a + b).last() == b.last());
        lemma_backups_add_up(a, b.drop_last(), entry);
        assert(recognised(a + b) =~= recognised(a) + recognised(b));
    }
}

/// A file is let through exactly where it is there and is a last good or an unreadable save.
/// A missing file and a name that is no backup are each refused with the name; what may not be
/// imported is refused whether it is there or not.
pub proof fn lemma_imports_are_refused_for_cause(file: Seq<char>, present: bool)
    ensures
        import_refusal(file, present) is None <==> present && (kind_of(file) == Some(
            SaveBackupKind::LastGood,
        ) || kind_of(file) == Some(SaveBackupKind::Corrupt)),
        import_refusal(file, false) matches Some(words) ==> (kind_of(file) is None || kind_of(
            file,
        )->0.can_import() ==> words.len() >= file.len() && words.subrange(
            words.len() - file.len(),
            words.len() as int,
        ) == file),
        kind_of(file) is None || !kind_of(file)->0.can_import() ==> import_refusal(file, true)
            == import_refusal(file, false),
        kind_of(file) is None ==> import_refusal(file, present) == Some(
            "不是可识别的存档备份文件名："@ + file,
        ),
        kind_of(file) == Some(SaveBackupKind::Future) ==> import_refusal(file, present) == Some(
            "该备份来自更高版本的存档，无法导入"@,
        ),
{
    let unknown = "不是可识别的存档备份文件名："@;
    let missing = "备份文件不存在："@;
    assert((unknown + file).subrange(unknown.len() as int, (unknown + file).len() as int) =~= file);
    assert((missing + file).subrange(missing.len() as int, (missing + file).len() as int) =~= file);
}

/// A bare name has none of the characters that separate folders or name a drive; each of them
/// anywhere in a name keeps it from being a backup.
pub proof fn lemma_bare_names_have_no_separator(name: Seq<char>, i: int)
    requires
        0 <= i < name.len(),
    ensures
        name[i] == '/' || name[i] == '\\' || name[i] == ':' ==> !bare(name) && kind_of(name) is None,
        (forall|j: int|
            0 <= j < name.len() ==> (#[trigger] name[j]) != '/' && name[j] != '\\' && name[j]
                != ':') ==> bare(name),
{
    assert(name.contains(name[i]));
}

/// Every kind has a place of its own, from the last good save to that of the first version.
pub proof fn lemma_kinds_have_their_places(a: SaveBackupKind, b: SaveBackupKind)
    ensures
        a.rank() == b.rank() <==> a == b,
        a.rank() < 4,
        SaveBackupKind::LastGood.rank() < SaveBackupKind::Corrupt.rank()
            < SaveBackupKind::Future.rank() < SaveBackupKind::V1Migration.rank(),
{
}

} // verus!
