//! The status screen: head rows, file sections, diff sections and the
//! recent log, in that order.

use vstd::prelude::*;
use vstd::string::*;

use crate::git::{
    files_of, resolve_head, BranchModel, BranchStatus, DiffModel, DiffRows, FileEntry, FileModel,
    HeadModel, HeadState, Snapshot, SnapshotModel, Status, StatusError,
};
use crate::items::{
    blank_line, blank_row, default_row, file_item, file_row, header_row, lemma_rows_of_add, notice,
    notice_row, rows_of, section_header, Item, Row, Style, StyledText,
};
use crate::text::{
    counted_message, counted_text, merge_message, merge_text, on_branch_message, on_branch_text,
    rebase_message, rebase_text, tracking_message, tracking_text,
};

verus! {

/// Picks the untracked files.
pub open spec fn wants_untracked() -> spec_fn(FileModel) -> bool {
    |file: FileModel| file.untracked
}

/// Picks the unmerged files.
pub open spec fn wants_unmerged() -> spec_fn(FileModel) -> bool {
    |file: FileModel| file.unmerged
}

/// Turns a file into its row, in the given accent.
pub open spec fn as_file_row(style: Style) -> spec_fn(FileModel) -> Row {
    |file: FileModel| file_row(file.path, style)
}

/// One row for each untracked file, in the order of `files`.
pub open spec fn untracked_rows(files: Seq<FileModel>) -> Seq<Row> {
    files.filter(wants_untracked()).map_values(as_file_row(Style::Untracked))
}

/// One row for each unmerged file, in the order of `files`.
pub open spec fn unmerged_rows(files: Seq<FileModel>) -> Seq<Row> {
    files.filter(wants_unmerged()).map_values(as_file_row(Style::Unmerged))
}

/// The title row of a detached head.
pub open spec fn no_branch_row() -> Row {
    Row { unselectable: true, ..header_row("branch_status"@, "No branch"@) }
}

/// The title row that names the current branch.
pub open spec fn on_branch_row(local: Seq<char>) -> Row {
    header_row("branch_status"@, on_branch_text(local))
}

/// The row that relates the branch to the remote it tracks.
pub open spec fn tracking_row(remote: Seq<char>, ahead: nat, behind: nat) -> Row {
    Row {
        id: "branch_status"@,
        text: tracking_text(remote, ahead, behind),
        depth: 1,
        unselectable: true,
        ..default_row()
    }
}

/// The rows of a consistent branch summary.
pub open spec fn branch_status_rows(branch: BranchModel) -> Seq<Row> {
    match branch.local {
        None => seq![no_branch_row()],
        Some(local) => match branch.remote {
            None => seq![on_branch_row(local)],
            Some(remote) => seq![
                on_branch_row(local),
                tracking_row(remote, branch.ahead, branch.behind),
            ],
        },
    }
}

/// The first rows of the screen, for a consistent head state.
pub open spec fn head_rows(head: HeadModel) -> Seq<Row> {
    match head {
        HeadModel::Rebasing(rebase) => seq![
            notice_row("rebase_status"@, rebase_text(rebase.head_name, rebase.onto)),
        ],
        HeadModel::Merging(merge) => seq![notice_row("merge_status"@, merge_text(merge.head))],
        HeadModel::BranchSummary(branch) => branch_status_rows(branch),
    }
}

/// A section: nothing for an empty body, else a blank row, the title and
/// the body.
pub open spec fn section_rows(id: Seq<char>, title: Seq<char>, body: Seq<Row>) -> Seq<Row> {
    if body.len() == 0 {
        body
    } else {
        seq![blank_row(), header_row(id, title)] + body
    }
}

/// The section of a diff: nothing where no file changed, else a blank row,
/// the title with the number of changed files, and the rows of the diff.
pub open spec fn status_section_rows(header: Seq<char>, diff: DiffModel) -> Seq<Row> {
    if diff.delta_count == 0 {
        Seq::empty()
    } else {
        seq![blank_row(), header_row(header, counted_text(header, diff.delta_count))] + diff.rows
    }
}

/// The section of the log: a blank row and the title, whatever the log
/// holds, then its rows.
pub open spec fn log_section_rows(header: Seq<char>, log: Seq<Row>) -> Seq<Row> {
    seq![blank_row(), header_row(header, header)] + log
}

/// All rows of the status screen, for a snapshot whose head state is
/// consistent.
pub open spec fn status_rows(snapshot: SnapshotModel) -> Seq<Row> {
    head_rows(resolve_head(snapshot.rebase, snapshot.merge, snapshot.status.branch_status))
        + section_rows(
        "untracked"@,
        "Untracked files"@,
        untracked_rows(snapshot.status.files),
    ) + section_rows("unmerged"@, "Unmerged"@, unmerged_rows(snapshot.status.files))
        + status_section_rows("Unstaged changes"@, snapshot.unstaged) + status_section_rows(
        "Staged changes"@,
        snapshot.staged,
    ) + log_section_rows("Recent commits"@, snapshot.log)
}

/// Whether rows can be built from the snapshot: its head state is
/// consistent.
pub open spec fn buildable(snapshot: SnapshotModel) -> bool {
    resolve_head(snapshot.rebase, snapshot.merge, snapshot.status.branch_status).consistent()
}

/// What building from `snapshot` returns.
pub open spec fn build_result(snapshot: SnapshotModel, result: Result<Vec<Item>, StatusError>) -> bool {
    if buildable(snapshot) {
        result matches Ok(items) && rows_of(items@) == status_rows(snapshot)
    } else {
        result matches Err(StatusError::InvariantViolation)
    }
}

/// Appending one file to `files` appends its row where `wanted` picks it,
/// and nothing else.
pub proof fn lemma_file_rows_push(
    files: Seq<FileModel>,
    file: FileModel,
    wanted: spec_fn(FileModel) -> bool,
    style: Style,
)
    ensures
        files.push(file).filter(wanted).map_values(as_file_row(style)) == if wanted(file) {
            files.filter(wanted).map_values(as_file_row(style)).push(file_row(file.path, style))
        } else {
            files.filter(wanted).map_values(as_file_row(style))
        },
{
    files.lemma_filter_push(file, wanted);
    if wanted(file) {
        assert(files.filter(wanted).push(file).map_values(as_file_row(style)) =~= files.filter(
            wanted,
        ).map_values(as_file_row(style)).push(file_row(file.path, style)));
    }
}

/// The rows of the files that `unmerged` selects: the unmerged ones where
/// it is set, the untracked ones where it is not.
fn file_items(files: &Vec<FileEntry>, unmerged: bool) -> (items: Vec<Item>)
    ensures
        rows_of(items@) == if unmerged {
            unmerged_rows(files_of(files@))
        } else {
            untracked_rows(files_of(files@))
        },
{
    let ghost wanted = if unmerged {
        wants_unmerged()
    } else {
        wants_untracked()
    };
    let style = if unmerged {
        Style::Unmerged
    } else {
        Style::Untracked
    };
    let ghost all = files_of(files@);
    let mut items: Vec<Item> = Vec::new();
    let mut i: usize = 0;
    proof {
        reveal(Seq::filter);
        assert(all.take(0) =~= Seq::<FileModel>::empty());
        assert(rows_of(items@) =~= all.take(0).filter(wanted).map_values(as_file_row(style)));
    }
    while i < files.len()
        invariant
            i <= files.len(),
            all == files_of(files@),
            wanted == if unmerged {
                wants_unmerged()
            } else {
                wants_untracked()
            },
            style == if unmerged {
                Style::Unmerged
            } else {
                Style::Untracked
            },
            rows_of(items@) == all.take(i as int).filter(wanted).map_values(as_file_row(style)),
        decreases files.len() - i,
    {
        let file = &files[i];
        let picked = if unmerged {
            file.is_unmerged()
        } else {
            file.is_untracked()
        };
        proof {
            assert(all[i as int] == file@);
            assert(all.take(i + 1) =~= all.take(i as int).push(file@));
            lemma_file_rows_push(all.take(i as int), file@, wanted, style);
        }
        if picked {
            let ghost before = items@;
            items.push(file_item(file.path.as_str(), style));
            assert(rows_of(items@) =~= rows_of(before).push(file_row(file@.path, style)));
        }
        i += 1;
    }
    assert(all.take(i as int) =~= all);
    items
}

/// One row for each untracked file of `status`, in order.
pub fn untracked(status: &Status) -> (items: Vec<Item>)
    ensures
        rows_of(items@) == untracked_rows(status@.files),
{
    file_items(&status.files, false)
}

/// One row for each unmerged file of `status`, in order.
pub fn unmerged(status: &Status) -> (items: Vec<Item>)
    ensures
        rows_of(items@) == unmerged_rows(status@.files),
{
    file_items(&status.files, true)
}

/// The row that relates the branch of `status` to `remote`, the remote
/// branch it tracks.
pub fn branch_status_remote_description(status: &BranchStatus, remote: &str) -> (item: Item)
    ensures
        item@ == tracking_row(remote@, status@.ahead, status@.behind),
{
    Item {
        id: String::from_str("branch_status"),
        display: StyledText {
            text: tracking_message(remote, status.ahead, status.behind),
            style: Style::Plain,
        },
        section: false,
        depth: 1,
        unselectable: true,
        target_data: None,
    }
}

/// The rows of a branch summary: the branch, or that there is none, and
/// how it stands against its remote where it tracks one.
pub fn branch_status_items(status: &BranchStatus) -> (items: Vec<Item>)
    requires
        status@.consistent(),
    ensures
        rows_of(items@) == branch_status_rows(status@),
{
    let mut items: Vec<Item> = Vec::new();
    match &status.local {
        None => {
            let mut title = section_header("branch_status", String::from_str("No branch"));
            title.unselectable = true;
            items.push(title);
        },
        Some(local) => {
            items.push(section_header("branch_status", on_branch_message(local.as_str())));
            match &status.remote {
                None => {},
                Some(remote) => {
                    items.push(branch_status_remote_description(status, remote.as_str()));
                },
            }
        },
    }
    assert(rows_of(items@) =~= branch_status_rows(status@));
    items
}

/// The first rows of the screen: the operation in progress, or the branch
/// summary.
pub fn head_items(head: &HeadState) -> (items: Vec<Item>)
    requires
        head@.consistent(),
    ensures
        rows_of(items@) == head_rows(head@),
{
    match head {
        HeadState::Rebasing(rebase) => {
            let mut items: Vec<Item> = Vec::new();
            items.push(
                notice(
                    "rebase_status",
                    rebase_message(rebase.head_name.as_str(), rebase.onto.as_str()),
                ),
            );
            assert(rows_of(items@) =~= head_rows(head@));
            items
        },
        HeadState::Merging(merge) => {
            let mut items: Vec<Item> = Vec::new();
            items.push(notice("merge_status", merge_message(merge.head.as_str())));
            assert(rows_of(items@) =~= head_rows(head@));
            items
        },
        HeadState::BranchSummary(branch) => branch_status_items(branch),
    }
}

/// Puts a blank row and a title before `body`.
fn titled(title: Item, body: Vec<Item>) -> (items: Vec<Item>)
    ensures
        rows_of(items@) == seq![blank_row(), title@] + rows_of(body@),
{
    let mut body = body;
    let mut items: Vec<Item> = Vec::new();
    items.push(blank_line());
    items.push(title);
    let ghost front = items@;
    let ghost back = body@;
    items.append(&mut body);
    proof {
        lemma_rows_of_add(front, back);
        assert(rows_of(front) =~= seq![blank_row(), title@]);
    }
    items
}

/// A section keyed by `id` and titled `title`: `body` unchanged where it
/// is empty, else a blank row, the title row and `body`.
pub fn assemble(id: &str, title: &str, body: Vec<Item>) -> (items: Vec<Item>)
    ensures
        rows_of(items@) == section_rows(id@, title@, rows_of(body@)),
{
    if body.len() == 0 {
        body
    } else {
        titled(section_header(id, String::from_str(title)), body)
    }
}

/// The section of a diff, titled `header` with the number of changed
/// files: nothing where no file changed.
pub fn create_status_section_items(header: &str, diff: DiffRows) -> (items: Vec<Item>)
    ensures
        rows_of(items@) == status_section_rows(header@, diff@),
{
    if diff.delta_count == 0 {
        let items: Vec<Item> = Vec::new();
        assert(rows_of(items@) =~= Seq::<Row>::empty());
        items
    } else {
        titled(section_header(header, counted_message(header, diff.delta_count)), diff.rows)
    }
}

/// The section of the recent log, titled `header`: the blank row and the
/// title stand even before an empty log.
pub fn create_log_section_items(header: &str, log: Vec<Item>) -> (items: Vec<Item>)
    ensures
        rows_of(items@) == log_section_rows(header@, rows_of(log@)),
{
    titled(section_header(header, String::from_str(header)), log)
}

/// What `create` returns for the outcome of the queries.
pub open spec fn create_result(
    queried: Result<Snapshot, String>,
    result: Result<Vec<Item>, StatusError>,
) -> bool {
    match queried {
        Ok(snapshot) => build_result(snapshot@, result),
        Err(message) => result matches Err(StatusError::RepositoryQueryFailed(reported))
            && reported@ == message@,
    }
}

/// Builds all rows of the status screen from one snapshot: the head rows,
/// the untracked and the unmerged files, the unstaged and the staged diff,
/// and the recent log. Fails, with no rows at all, where the branch
/// summary governs the head and reports a remote branch without a local
/// one.
pub fn build(snapshot: Snapshot) -> (result: Result<Vec<Item>, StatusError>)
    ensures
        build_result(snapshot@, result),
{
    let ghost model = snapshot@;
    let Snapshot { status, rebase, merge, unstaged, staged, log } = snapshot;
    let untracked_items = untracked(&status);
    let unmerged_items = unmerged(&status);
    let Status { files: _, branch_status } = status;
    let head = HeadState::resolve(rebase, merge, branch_status);
    let consistent = match &head {
        HeadState::BranchSummary(branch) => branch.is_consistent(),
        _ => true,
    };
    if !consistent {
        return Err(StatusError::InvariantViolation);
    }
    let mut items = head_items(&head);

    let mut section = assemble("untracked", "Untracked files", untracked_items);
    proof {
        lemma_rows_of_add(items@, section@);
    }
    items.append(&mut section);

    let mut section = assemble("unmerged", "Unmerged", unmerged_items);
    proof {
        lemma_rows_of_add(items@, section@);
    }
    items.append(&mut section);

    let mut section = create_status_section_items("Unstaged changes", unstaged);
    proof {
        lemma_rows_of_add(items@, section@);
    }
    items.append(&mut section);

    let mut section = create_status_section_items("Staged changes", staged);
    proof {
        lemma_rows_of_add(items@, section@);
    }
    items.append(&mut section);

    let mut section = create_log_section_items("Recent commits", log);
    proof {
        lemma_rows_of_add(items@, section@);
    }
    items.append(&mut section);

    assert(rows_of(items@) == status_rows(model));
    Ok(items)
}

/// Builds the rows of the status screen from the outcome of the queries:
/// a failed query is reported with its message and yields no rows; a
/// snapshot is handed to [`build`].
pub fn create(queried: Result<Snapshot, String>) -> (result: Result<Vec<Item>, StatusError>)
    ensures
        create_result(queried, result),
{
    match queried {
        Ok(snapshot) => build(snapshot),
        Err(message) => Err(StatusError::RepositoryQueryFailed(message)),
    }
}

} // verus!
