//! What a repository reports, as plain values, with the model of each.

use vstd::prelude::*;

use crate::items::{rows_of, Item, Row};

verus! {

/// One entry of the working tree or index.
#[derive(Clone, Debug, PartialEq, Eq)]
pub struct FileEntry {
    pub path: String,
    /// On disk, but not tracked.
    pub untracked: bool,
    /// Left in conflict by a merge.
    pub unmerged: bool,
}

/// The current branch against the remote branch it tracks.
#[derive(Clone, Debug, PartialEq, Eq)]
pub struct BranchStatus {
    pub local: Option<String>,
    pub remote: Option<String>,
    pub ahead: u32,
    pub behind: u32,
}

/// Files and branch, as one status query reports them.
#[derive(Clone, Debug, PartialEq, Eq)]
pub struct Status {
    pub files: Vec<FileEntry>,
    pub branch_status: BranchStatus,
}

/// A rebase in progress.
#[derive(Clone, Debug, PartialEq, Eq)]
pub struct RebaseStatus {
    pub head_name: String,
    pub onto: String,
}

/// A merge in progress.
#[derive(Clone, Debug, PartialEq, Eq)]
pub struct MergeStatus {
    pub head: String,
}

/// What governs the first rows of the screen.
#[derive(Clone, Debug, PartialEq, Eq)]
pub enum HeadState {
    Rebasing(RebaseStatus),
    Merging(MergeStatus),
    BranchSummary(BranchStatus),
}

/// A diff, flattened: the number of its changed files, and the rows that
/// show them, at depth 1 and below.
#[derive(Clone, Debug, PartialEq, Eq)]
pub struct DiffRows {
    pub delta_count: usize,
    pub rows: Vec<Item>,
}

/// Everything the status screen shows, as queried at one moment.
#[derive(Clone, Debug, PartialEq, Eq)]
pub struct Snapshot {
    pub status: Status,
    pub rebase: Option<RebaseStatus>,
    /// Consulted only where no rebase is in progress.
    pub merge: Option<MergeStatus>,
    pub unstaged: DiffRows,
    pub staged: DiffRows,
    /// The recent log, flattened into rows.
    pub log: Vec<Item>,
}

/// Why no rows could be built.
#[derive(Clone, Debug, PartialEq, Eq)]
pub enum StatusError {
    /// A query to the repository failed, with its message.
    RepositoryQueryFailed(String),
    /// A remote branch was reported without a local one.
    InvariantViolation,
}

/// Model of a [`FileEntry`].
pub struct FileModel {
    pub path: Seq<char>,
    pub untracked: bool,
    pub unmerged: bool,
}

/// Model of a [`BranchStatus`].
pub struct BranchModel {
    pub local: Option<Seq<char>>,
    pub remote: Option<Seq<char>>,
    pub ahead: nat,
    pub behind: nat,
}

/// Model of a [`Status`].
pub struct StatusModel {
    pub files: Seq<FileModel>,
    pub branch_status: BranchModel,
}

/// Model of a [`RebaseStatus`].
pub struct RebaseModel {
    pub head_name: Seq<char>,
    pub onto: Seq<char>,
}

/// Model of a [`MergeStatus`].
pub struct MergeModel {
    pub head: Seq<char>,
}

/// Model of a [`HeadState`].
pub enum HeadModel {
    Rebasing(RebaseModel),
    Merging(MergeModel),
    BranchSummary(BranchModel),
}

/// Model of a [`DiffRows`].
pub struct DiffModel {
    pub delta_count: nat,
    pub rows: Seq<Row>,
}

/// Model of a [`Snapshot`].
pub struct SnapshotModel {
    pub status: StatusModel,
    pub rebase: Option<RebaseModel>,
    pub merge: Option<MergeModel>,
    pub unstaged: DiffModel,
    pub staged: DiffModel,
    pub log: Seq<Row>,
}

/// The characters of an optional string.
pub open spec fn name_of(name: Option<String>) -> Option<Seq<char>> {
    match name {
        Some(s) => Some(s@),
        None => None,
    }
}

/// The models of a sequence of file entries, in order.
pub open spec fn files_of(files: Seq<FileEntry>) -> Seq<FileModel> {
    files.map_values(|file: FileEntry| file@)
}

/// The model of an optional rebase.
pub open spec fn rebase_of(rebase: Option<RebaseStatus>) -> Option<RebaseModel> {
    match rebase {
        Some(r) => Some(r@),
        None => None,
    }
}

/// The model of an optional merge.
pub open spec fn merge_of(merge: Option<MergeStatus>) -> Option<MergeModel> {
    match merge {
        Some(m) => Some(m@),
        None => None,
    }
}

impl View for FileEntry {
    type V = FileModel;

    open spec fn view(&self) -> FileModel {
        FileModel { path: self.path@, untracked: self.untracked, unmerged: self.unmerged }
    }
}

impl View for BranchStatus {
    type V = BranchModel;

    open spec fn view(&self) -> BranchModel {
        BranchModel {
            local: name_of(self.local),
            remote: name_of(self.remote),
            ahead: self.ahead as nat,
            behind: self.behind as nat,
        }
    }
}

impl View for Status {
    type V = StatusModel;

    open spec fn view(&self) -> StatusModel {
        StatusModel { files: files_of(self.files@), branch_status: self.branch_status@ }
    }
}

impl View for RebaseStatus {
    type V = RebaseModel;

    open spec fn view(&self) -> RebaseModel {
        RebaseModel { head_name: self.head_name@, onto: self.onto@ }
    }
}

impl View for MergeStatus {
    type V = MergeModel;

    open spec fn view(&self) -> MergeModel {
        MergeModel { head: self.head@ }
    }
}

impl View for HeadState {
    type V = HeadModel;

    open spec fn view(&self) -> HeadModel {
        match *self {
            HeadState::Rebasing(rebase) => HeadModel::Rebasing(rebase@),
            HeadState::Merging(merge) => HeadModel::Merging(merge@),
            HeadState::BranchSummary(branch) => HeadModel::BranchSummary(branch@),
        }
    }
}

impl View for DiffRows {
    type V = DiffModel;

    open spec fn view(&self) -> DiffModel {
        DiffModel { delta_count: self.delta_count as nat, rows: rows_of(self.rows@) }
    }
}

impl View for Snapshot {
    type V = SnapshotModel;

    open spec fn view(&self) -> SnapshotModel {
        SnapshotModel {
            status: self.status@,
            rebase: rebase_of(self.rebase),
            merge: merge_of(self.merge),
            unstaged: self.unstaged@,
            staged: self.staged@,
            log: rows_of(self.log@),
        }
    }
}

impl BranchModel {
    /// A remote branch is reported only together with a local one.
    pub open spec fn consistent(self) -> bool {
        self.remote is Some ==> self.local is Some
    }
}

impl HeadModel {
    /// A branch summary is consistent; a rebase or a merge always is.
    pub open spec fn consistent(self) -> bool {
        self matches HeadModel::BranchSummary(branch) ==> branch.consistent()
    }
}

/// The head state that the three reports amount to: a rebase comes before
/// a merge, and a merge before the branch summary.
pub open spec fn resolve_head(
    rebase: Option<RebaseModel>,
    merge: Option<MergeModel>,
    branch: BranchModel,
) -> HeadModel {
    match rebase {
        Some(r) => HeadModel::Rebasing(r),
        None => match merge {
            Some(m) => HeadModel::Merging(m),
            None => HeadModel::BranchSummary(branch),
        },
    }
}

impl FileEntry {
    pub fn is_untracked(&self) -> (b: bool)
        ensures
            b == self@.untracked,
    {
        self.untracked
    }

    pub fn is_unmerged(&self) -> (b: bool)
        ensures
            b == self@.unmerged,
    {
        self.unmerged
    }
}

impl BranchStatus {
    /// Whether a remote branch is reported only together with a local one.
    pub fn is_consistent(&self) -> (b: bool)
        ensures
            b == self@.consistent(),
    {
        self.local.is_some() || self.remote.is_none()
    }
}

impl HeadState {
    /// Settles which of the three reports governs the head of the screen.
    pub fn resolve(
        rebase: Option<RebaseStatus>,
        merge: Option<MergeStatus>,
        branch: BranchStatus,
    ) -> (head: HeadState)
        ensures
            head@ == resolve_head(rebase_of(rebase), merge_of(merge), branch@),
    {
        match rebase {
            Some(r) => HeadState::Rebasing(r),
            None => match merge {
                Some(m) => HeadState::Merging(m),
                None => HeadState::BranchSummary(branch),
            },
        }
    }
}

} // verus!
