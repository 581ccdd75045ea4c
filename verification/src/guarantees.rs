//! What holds of the rows of every snapshot.

use vstd::prelude::*;

use crate::git::{
    resolve_head, BranchModel, MergeModel, Snapshot, SnapshotModel, StatusError, StatusModel,
};
use crate::items::{
    blank_row, file_row, header_row, notice_row, rows_of, Item, Row, Style, Target,
};
use crate::status::{
    branch_status_rows, build_result, buildable, head_rows, log_section_rows, no_branch_row,
    section_rows, status_rows, status_section_rows, unmerged_rows, untracked_rows,
    wants_untracked,
};
use crate::text::rebase_text;

verus! {

/// A branch summary that names neither a local nor a remote branch yields
/// exactly one row: the title "No branch", which the cursor skips.
pub proof fn lemma_no_branch_is_one_unselectable_row(branch: BranchModel)
    requires
        branch.local is None,
        branch.remote is None,
    ensures
        branch.consistent(),
        branch_status_rows(branch) == seq![no_branch_row()],
        branch_status_rows(branch).len() == 1,
        branch_status_rows(branch)[0].text == "No branch"@,
        branch_status_rows(branch)[0].unselectable,
{
}

/// While a rebase is in progress the screen can always be built, its
/// first row is the row of the rebase, that row is the whole head of the
/// screen, and neither the branch summary nor a merge changes any row.
pub proof fn lemma_rebase_governs_head(
    snapshot: SnapshotModel,
    branch: BranchModel,
    merge: Option<MergeModel>,
)
    requires
        snapshot.rebase is Some,
    ensures
        buildable(snapshot),
        head_rows(resolve_head(snapshot.rebase, snapshot.merge, snapshot.status.branch_status))
            == seq![
            notice_row(
                "rebase_status"@,
                rebase_text(snapshot.rebase->0.head_name, snapshot.rebase->0.onto),
            ),
        ],
        status_rows(snapshot)[0] == notice_row(
            "rebase_status"@,
            rebase_text(snapshot.rebase->0.head_name, snapshot.rebase->0.onto),
        ),
        status_rows(snapshot) == status_rows(
            SnapshotModel {
                merge,
                status: StatusModel { branch_status: branch, ..snapshot.status },
                ..snapshot
            },
        ),
{
}

/// Without untracked files the screen holds no section of them: the
/// unmerged files follow the head at once.
pub proof fn lemma_no_untracked_no_section(snapshot: SnapshotModel)
    requires
        snapshot.status.files.filter(wants_untracked()).len() == 0,
    ensures
        section_rows("untracked"@, "Untracked files"@, untracked_rows(snapshot.status.files))
            == Seq::<Row>::empty(),
        status_rows(snapshot) == head_rows(
            resolve_head(snapshot.rebase, snapshot.merge, snapshot.status.branch_status),
        ) + section_rows("unmerged"@, "Unmerged"@, unmerged_rows(snapshot.status.files))
            + status_section_rows("Unstaged changes"@, snapshot.unstaged) + status_section_rows(
            "Staged changes"@,
            snapshot.staged,
        ) + log_section_rows("Recent commits"@, snapshot.log),
{
    let section = section_rows(
        "untracked"@,
        "Untracked files"@,
        untracked_rows(snapshot.status.files),
    );
    assert(section =~= Seq::<Row>::empty());
    let head = head_rows(
        resolve_head(snapshot.rebase, snapshot.merge, snapshot.status.branch_status),
    );
    assert(head + section =~= head);
}

/// With untracked files, their section is a blank row, the title
/// "Untracked files", and one row for each of them in order: selectable,
/// at depth 1, acting on the file's path.
pub proof fn lemma_untracked_section(snapshot: SnapshotModel)
    requires
        snapshot.status.files.filter(wants_untracked()).len() > 0,
    ensures
        ({
            let files = snapshot.status.files.filter(wants_untracked());
            let section = section_rows(
                "untracked"@,
                "Untracked files"@,
                untracked_rows(snapshot.status.files),
            );
            &&& section.len() == files.len() + 2
            &&& section[0] == blank_row()
            &&& section[1] == header_row("untracked"@, "Untracked files"@)
            &&& forall|i: int|
                0 <= i < files.len() ==> {
                    &&& #[trigger] section[i + 2] == file_row(files[i].path, Style::Untracked)
                    &&& !section[i + 2].unselectable
                    &&& section[i + 2].depth == 1
                    &&& section[i + 2].target == Some(Target::File(files[i].path))
                }
        }),
{
}

/// The rows of a screen end with a blank row, the title "Recent commits"
/// and the rows of the log, whether or not the log holds any.
pub proof fn lemma_recent_commits_always_present(snapshot: SnapshotModel)
    ensures
        ({
            let rows = status_rows(snapshot);
            let start = rows.len() - snapshot.log.len() - 2;
            &&& start >= 0
            &&& rows[start] == blank_row()
            &&& rows[start + 1] == header_row("Recent commits"@, "Recent commits"@)
            &&& rows.subrange(start + 2, rows.len() as int) == snapshot.log
        }),
{
    let rows = status_rows(snapshot);
    let start = rows.len() - snapshot.log.len() - 2;
    assert(rows.subrange(start + 2, rows.len() as int) =~= snapshot.log);
}

/// Building twice from the same data gives the same outcome: either both
/// fail, in the same way, or both succeed with the same rows in the same
/// order.
pub proof fn lemma_rebuild_is_identical(
    first: Snapshot,
    second: Snapshot,
    first_result: Result<Vec<Item>, StatusError>,
    second_result: Result<Vec<Item>, StatusError>,
)
    requires
        first@ == second@,
        build_result(first@, first_result),
        build_result(second@, second_result),
    ensures
        first_result is Ok <==> second_result is Ok,
        first_result is Ok ==> rows_of(first_result->Ok_0@) == rows_of(second_result->Ok_0@),
        first_result is Err ==> first_result->Err_0 == StatusError::InvariantViolation
            && second_result->Err_0 == StatusError::InvariantViolation,
{
}

/// A row is well placed where, at depth 0, it is a section title or acts
/// on nothing, and, below, it is no section title.
pub open spec fn well_placed(row: Row) -> bool {
    if row.depth == 0 {
        row.section || row.target is None
    } else {
        !row.section
    }
}

/// Every row lies below depth 0 and is no section title.
pub open spec fn all_members(rows: Seq<Row>) -> bool {
    forall|i: int| 0 <= i < rows.len() ==> (#[trigger] rows[i]).depth >= 1 && !rows[i].section
}

/// Where the rows of both diffs and of the log are members of their
/// sections, every row of the screen is well placed: the rows at depth 0
/// are the titles, the separators and the rows of the head.
pub proof fn lemma_rows_are_well_placed(snapshot: SnapshotModel)
    requires
        all_members(snapshot.unstaged.rows),
        all_members(snapshot.staged.rows),
        all_members(snapshot.log),
    ensures
        forall|i: int|
            0 <= i < status_rows(snapshot).len() ==> well_placed(#[trigger] status_rows(snapshot)[i]),
{
    let head = head_rows(
        resolve_head(snapshot.rebase, snapshot.merge, snapshot.status.branch_status),
    );
    let untracked = section_rows(
        "untracked"@,
        "Untracked files"@,
        untracked_rows(snapshot.status.files),
    );
    let unmerged = section_rows("unmerged"@, "Unmerged"@, unmerged_rows(snapshot.status.files));
    let unstaged = status_section_rows("Unstaged changes"@, snapshot.unstaged);
    let staged = status_section_rows("Staged changes"@, snapshot.staged);
    let log = log_section_rows("Recent commits"@, snapshot.log);
    assert forall|i: int| 0 <= i < head.len() implies well_placed(#[trigger] head[i]) by {}
    assert forall|i: int| 0 <= i < untracked.len() implies well_placed(
        #[trigger] untracked[i],
    ) by {}
    assert forall|i: int| 0 <= i < unmerged.len() implies well_placed(#[trigger] unmerged[i]) by {}
    assert forall|i: int| 0 <= i < unstaged.len() implies well_placed(#[trigger] unstaged[i]) by {
        if i >= 2 {
            assert(unstaged[i] == snapshot.unstaged.rows[i - 2]);
        }
    }
    assert forall|i: int| 0 <= i < staged.len() implies well_placed(#[trigger] staged[i]) by {
        if i >= 2 {
            assert(staged[i] == snapshot.staged.rows[i - 2]);
        }
    }
    assert forall|i: int| 0 <= i < log.len() implies well_placed(#[trigger] log[i]) by {
        if i >= 2 {
            assert(log[i] == snapshot.log[i - 2]);
        }
    }
}

} // verus!
