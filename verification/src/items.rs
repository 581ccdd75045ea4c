//! The rows of a list pane and their mathematical model.

use vstd::prelude::*;
use vstd::string::*;

verus! {

/// How a text is presented. The colours behind the accents belong to
/// whoever draws the rows.
#[derive(Clone, Copy, Debug, PartialEq, Eq, Structural)]
pub enum Style {
    /// Unstyled text.
    Plain,
    /// Bold, in the accent of section titles.
    Section,
    /// Bold, in the accent of untracked files.
    Untracked,
    /// Bold, in the accent of unmerged files.
    Unmerged,
}

/// A text with the way it is presented. The text may span several lines.
#[derive(Clone, Debug, PartialEq, Eq)]
pub struct StyledText {
    pub text: String,
    pub style: Style,
}

/// What an action on a row operates on.
#[derive(Clone, Debug, PartialEq, Eq)]
pub enum TargetData {
    /// A file, by its path.
    File(String),
    /// A reference or commit, by its name.
    Ref(String),
    /// A changed file of a diff, by its path.
    Delta(String),
    /// A hunk of a diff, by its header.
    Hunk(String),
}

/// One row of the pane.
#[derive(Clone, Debug, PartialEq, Eq)]
pub struct Item {
    /// Key by which a row is found again after a rebuild. Rows of different
    /// sections may share a key.
    pub id: String,
    pub display: StyledText,
    /// Whether the row is the title of a section.
    pub section: bool,
    /// Nesting level: 0 for titles and standalone rows, 1 for members of a
    /// section.
    pub depth: usize,
    /// Whether the cursor skips the row.
    pub unselectable: bool,
    pub target_data: Option<TargetData>,
}

/// Model of a [`TargetData`].
pub enum Target {
    File(Seq<char>),
    Ref(Seq<char>),
    Delta(Seq<char>),
    Hunk(Seq<char>),
}

/// Model of an [`Item`].
pub struct Row {
    pub id: Seq<char>,
    pub text: Seq<char>,
    pub style: Style,
    pub section: bool,
    pub depth: nat,
    pub unselectable: bool,
    pub target: Option<Target>,
}

impl View for TargetData {
    type V = Target;

    open spec fn view(&self) -> Target {
        match *self {
            TargetData::File(path) => Target::File(path@),
            TargetData::Ref(name) => Target::Ref(name@),
            TargetData::Delta(path) => Target::Delta(path@),
            TargetData::Hunk(header) => Target::Hunk(header@),
        }
    }
}

impl View for Item {
    type V = Row;

    open spec fn view(&self) -> Row {
        Row {
            id: self.id@,
            text: self.display.text@,
            style: self.display.style,
            section: self.section,
            depth: self.depth as nat,
            unselectable: self.unselectable,
            target: match self.target_data {
                Some(target) => Some(target@),
                None => None,
            },
        }
    }
}

/// The row that every field of an [`Item`] takes by default: empty key and
/// text, depth 0, selectable, no target.
pub open spec fn default_row() -> Row {
    Row {
        id: Seq::empty(),
        text: Seq::empty(),
        style: Style::Plain,
        section: false,
        depth: 0,
        unselectable: false,
        target: None,
    }
}

/// The empty row that separates two sections.
pub open spec fn blank_row() -> Row {
    Row { unselectable: true, ..default_row() }
}

/// The title row of a section.
pub open spec fn header_row(id: Seq<char>, text: Seq<char>) -> Row {
    Row { id, text, style: Style::Section, section: true, ..default_row() }
}

/// A standalone row in the accent of section titles.
pub open spec fn notice_row(id: Seq<char>, text: Seq<char>) -> Row {
    Row { id, text, style: Style::Section, ..default_row() }
}

/// The row of one file: keyed and labelled by its path, and acting on it.
pub open spec fn file_row(path: Seq<char>, style: Style) -> Row {
    Row {
        id: path,
        text: path,
        style,
        depth: 1,
        target: Some(Target::File(path)),
        ..default_row()
    }
}

impl Default for Item {
    fn default() -> (item: Item)
        ensures
            item@ == default_row(),
    {
        Item {
            id: String::new(),
            display: StyledText { text: String::new(), style: Style::Plain },
            section: false,
            depth: 0,
            unselectable: false,
            target_data: None,
        }
    }
}

/// The empty row that separates two sections.
pub fn blank_line() -> (item: Item)
    ensures
        item@ == blank_row(),
{
    Item {
        id: String::new(),
        display: StyledText { text: String::new(), style: Style::Plain },
        section: false,
        depth: 0,
        unselectable: true,
        target_data: None,
    }
}

/// The title row of a section, keyed by `id` and labelled `text`.
pub fn section_header(id: &str, text: String) -> (item: Item)
    ensures
        item@ == header_row(id@, text@),
{
    Item {
        id: String::from_str(id),
        display: StyledText { text, style: Style::Section },
        section: true,
        depth: 0,
        unselectable: false,
        target_data: None,
    }
}

/// A standalone row in the accent of section titles.
pub fn notice(id: &str, text: String) -> (item: Item)
    ensures
        item@ == notice_row(id@, text@),
{
    Item {
        id: String::from_str(id),
        display: StyledText { text, style: Style::Section },
        section: false,
        depth: 0,
        unselectable: false,
        target_data: None,
    }
}

/// The row of the file at `path`, in the given accent.
pub fn file_item(path: &str, style: Style) -> (item: Item)
    ensures
        item@ == file_row(path@, style),
{
    Item {
        id: String::from_str(path),
        display: StyledText { text: String::from_str(path), style },
        section: false,
        depth: 1,
        unselectable: false,
        target_data: Some(TargetData::File(String::from_str(path))),
    }
}

/// The rows that a sequence of items stands for.
pub open spec fn rows_of(items: Seq<Item>) -> Seq<Row> {
    items.map_values(|item: Item| item@)
}

/// The rows of a concatenation are the concatenation of the rows.
pub proof fn lemma_rows_of_add(a: Seq<Item>, b: Seq<Item>)
    ensures
        rows_of(a + b) == rows_of(a) + rows_of(b),
{
    assert(rows_of(a + b) =~= rows_of(a) + rows_of(b));
}

} // verus!
