//! The document model and the session state: line items, the modal edit
//! state machine's fields, and the well-formedness invariant that every
//! operation of the engine preserves.

use vstd::prelude::*;

use crate::text_input::TextInput;

verus! {

/// The current UI mode.
#[derive(Debug, Clone, Copy, PartialEq, Eq, Structural)]
pub enum Mode {
    Normal,
    Edit,
    Search,
}

/// Whether an edit session updates an existing line or inserts a new one.
#[derive(Debug, Clone, Copy, PartialEq, Eq, Structural)]
pub enum EditIntent {
    Idle,
    Update,
    Insert,
}

/// Whether an edit session addresses a task or a section header.
#[derive(Debug, Clone, Copy, PartialEq, Eq, Structural)]
pub enum EditTarget {
    Task,
    Section,
}

/// A single checkbox task; indent and bullet are preserved verbatim so a
/// document round-trips without reformatting.
#[derive(Debug, Clone, PartialEq, Eq)]
pub struct Task {
    pub indent: String,
    pub bullet: String,
    pub completed: bool,
    pub text: String,
}

/// One line of the document: a task or a section header.
#[derive(Debug, Clone, PartialEq, Eq)]
pub enum LineItem {
    Task(Task),
    Section { title: String },
}

/// A full snapshot of the document plus the cursor, for undo/redo.
#[derive(Debug, Clone)]
pub struct UndoState {
    pub lines: Vec<LineItem>,
    pub cursor: usize,
}

/// Upper bound on the undo and redo stacks together.
pub const MAX_UNDO_HISTORY: usize = 10;

/// The serialized form of a task line.
pub open spec fn task_line_spec(t: Task) -> Seq<char> {
    t.indent@ + t.bullet@ + " ["@ + (if t.completed {
        "x"@
    } else {
        " "@
    }) + "] "@ + t.text@
}

/// The serialized form of any line item.
pub open spec fn item_line_spec(item: LineItem) -> Seq<char> {
    match item {
        LineItem::Section { title } => "## "@ + title@,
        LineItem::Task(t) => task_line_spec(t),
    }
}

impl Task {
    pub open spec fn wf(self) -> bool {
        true
    }

    /// An exact copy of the task.
    pub fn clone_task(&self) -> (r: Task)
        ensures
            r == *self,
    {
        Task {
            indent: self.indent.clone(),
            bullet: self.bullet.clone(),
            completed: self.completed,
            text: self.text.clone(),
        }
    }

    /// Serializes the task as `indent bullet [mark] text`, with `x` marking a
    /// completed task and a space an open one.
    pub fn line(&self) -> (r: String)
        ensures
            r@ == task_line_spec(*self),
    {
        let mut out = String::new();
        out.append(self.indent.as_str());
        out.append(self.bullet.as_str());
        out.append(" [");
        if self.completed {
            out.append("x");
        } else {
            out.append(" ");
        }
        out.append("] ");
        out.append(self.text.as_str());
        proof {
            assert(out@ =~= task_line_spec(*self));
        }
        out
    }
}

impl LineItem {
    pub open spec fn is_task_spec(self) -> bool {
        self matches LineItem::Task(_)
    }

    pub open spec fn is_section_spec(self) -> bool {
        self matches LineItem::Section { .. }
    }

    /// The task inside the item; meaningful only when the item is a task.
    pub open spec fn task_spec(self) -> Task
        recommends
            self.is_task_spec(),
    {
        match self {
            LineItem::Task(t) => t,
            LineItem::Section { title } => Task {
                indent: title,
                bullet: title,
                completed: false,
                text: title,
            },
        }
    }

    /// The section title; meaningful only when the item is a section.
    pub open spec fn title_spec(self) -> Seq<char>
        recommends
            self.is_section_spec(),
    {
        match self {
            LineItem::Section { title } => title@,
            LineItem::Task(t) => t.text@,
        }
    }

    /// An exact copy of the item.
    pub fn clone_item(&self) -> (r: LineItem)
        ensures
            r == *self,
    {
        match self {
            LineItem::Task(t) => LineItem::Task(t.clone_task()),
            LineItem::Section { title } => LineItem::Section { title: title.clone() },
        }
    }

    /// Serializes the item: `## title` for sections, the task line otherwise.
    pub fn line(&self) -> (r: String)
        ensures
            r@ == item_line_spec(*self),
    {
        match self {
            LineItem::Section { title } => {
                let mut out = String::new();
                out.append("## ");
                out.append(title.as_str());
                proof {
                    assert(out@ =~= item_line_spec(*self));
                }
                out
            },
            LineItem::Task(t) => t.line(),
        }
    }

    pub fn is_task(&self) -> (r: bool)
        ensures
            r == self.is_task_spec(),
    {
        matches!(self, LineItem::Task(_))
    }

    pub fn is_section(&self) -> (r: bool)
        ensures
            r == self.is_section_spec(),
    {
        matches!(self, LineItem::Section { .. })
    }
}

/// An exact copy of a document, used when snapshotting for undo/redo.
pub fn clone_lines(lines: &Vec<LineItem>) -> (r: Vec<LineItem>)
    ensures
        r@ == lines@,
{
    let mut out: Vec<LineItem> = Vec::new();
    let mut i: usize = 0;
    while i < lines.len()
        invariant
            i <= lines@.len(),
            out@ == lines@.subrange(0, i as int),
        decreases lines@.len() - i,
    {
        out.push(lines[i].clone_item());
        i = i + 1;
        proof {
            assert(out@ =~= lines@.subrange(0, i as int));
        }
    }
    proof {
        assert(out@ =~= lines@);
    }
    out
}

/// The whole session state, passed explicitly through the event-handling
/// call chain.
#[derive(Debug)]
pub struct App {
    /// Display name of the backing file, shown in the header.
    pub file_name: String,
    /// The ordered document.
    pub lines: Vec<LineItem>,
    /// Index of the current item.
    pub cursor: usize,
    pub mode: Mode,
    /// Buffer for the task or section text being edited.
    pub text_input: TextInput,
    /// Buffer for the search query.
    pub search_input: TextInput,
    pub input_placeholder: String,
    pub edit_intent: EditIntent,
    pub edit_target: EditTarget,
    pub edit_index: Option<usize>,
    pub insert_index: Option<usize>,
    /// Indent and bullet carried into the next inserted task.
    pub edit_template: Task,
    pub status_message: String,
    pub error: Option<String>,
    /// Last known modification stamp of the backing file, in the host's
    /// monotone units; larger means later.
    pub last_modified: u64,
    /// A disk change arrived while editing; reload once the edit ends.
    pub pending_reload: bool,
    pub selection_active: bool,
    pub selection_anchor: usize,
    pub window_width: u16,
    pub window_height: u16,
    pub renderer_width: usize,
    /// Index of the task handed to the external editor, while one runs.
    pub external_edit_idx: Option<usize>,
    pub undo_stack: Vec<UndoState>,
    pub redo_stack: Vec<UndoState>,
    /// A `d` was pressed and a second one would delete the current line.
    pub pending_d: bool,
    pub scroll_offset: usize,
    pub should_quit: bool,
    /// The engine asks its caller to persist the document and then report
    /// the outcome through `apply_save_result`.
    pub pending_save: bool,
    /// Status message to show once the pending save succeeds.
    pub pending_save_message: String,
    /// The engine asks its caller to reload the document from disk and
    /// report through `apply_reload` or `apply_load_error`.
    pub reload_requested: bool,
}

impl App {
    /// The invariant every operation of the engine preserves: the cursor is
    /// a valid index whenever the document is non-empty (outside an insert
    /// edit it may sit one past the end), the undo and redo stacks together
    /// stay bounded, and mode and intent agree.
    pub open spec fn wf(self) -> bool {
        &&& self.cursor <= self.lines@.len()
        &&& (self.mode != Mode::Edit ==> cursor_in_bounds(self.cursor, self.lines@.len()))
        &&& self.undo_stack@.len() + self.redo_stack@.len() <= MAX_UNDO_HISTORY
        &&& (self.mode == Mode::Edit <==> self.edit_intent != EditIntent::Idle)
        &&& self.text_input.wf()
        &&& self.search_input.wf()
    }
}

/// A cursor position that addresses an existing item, or zero when there is
/// nothing to address.
pub open spec fn cursor_in_bounds(cursor: usize, len: nat) -> bool {
    if len == 0 {
        cursor == 0
    } else {
        cursor < len
    }
}

} // verus!
