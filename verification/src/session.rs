//! Session-level operations: constructing a session, line selection,
//! deletion, counting, the task template, and the state transitions at the
//! persistence boundary. The engine never performs I/O itself: it raises
//! request flags (`pending_save`, `reload_requested`, an external-edit
//! index) and the caller reports outcomes back through the `apply_*` and
//! `finish_*` operations, which are verified for every possible outcome.

use vstd::prelude::*;
use vstd::string::StringExecFns;

use crate::edit::clamp_cursor;
use crate::edit::clamp_cursor_spec;
use crate::history::hist_of;
use crate::history::snapshot_step;
use crate::model::App;
use crate::model::EditIntent;
use crate::model::EditTarget;
use crate::model::LineItem;
use crate::model::Mode;
use crate::model::Task;
use crate::text_input::TextInput;

verus! {

/// The width assumed before the first resize event arrives.
pub const DEFAULT_WINDOW_WIDTH: u16 = 80;

/// How many of the items are tasks.
pub open spec fn count_tasks_spec(lines: Seq<LineItem>) -> nat
    decreases lines.len(),
{
    if lines.len() == 0 {
        0
    } else {
        count_tasks_spec(lines.drop_last()) + if lines.last().is_task_spec() {
            1nat
        } else {
            0nat
        }
    }
}

/// How many of the items are completed tasks.
pub open spec fn count_completed_spec(lines: Seq<LineItem>) -> nat
    decreases lines.len(),
{
    if lines.len() == 0 {
        0
    } else {
        count_completed_spec(lines.drop_last()) + if lines.last().is_task_spec()
            && lines.last().task_spec().completed {
            1nat
        } else {
            0nat
        }
    }
}

/// The first task of the document, which seeds the insert template.
pub open spec fn first_task_spec(lines: Seq<LineItem>) -> Option<Task>
    decreases lines.len(),
{
    if lines.len() == 0 {
        None
    } else if lines[0].is_task_spec() {
        Some(lines[0].task_spec())
    } else {
        first_task_spec(lines.drop_first())
    }
}

/// The template seeded from a document: the first task's indent and bullet,
/// or no indent and a dash when the document has no task; always an open
/// task with empty text.
pub open spec fn is_default_template(t: Task, lines: Seq<LineItem>) -> bool {
    &&& match first_task_spec(lines) {
        Some(f) => t.indent == f.indent && t.bullet == f.bullet,
        None => t.indent@ == Seq::<char>::empty() && t.bullet@ == "-"@,
    }
    &&& t.completed == false
    &&& t.text@ == Seq::<char>::empty()
}

/// Whether a selection survives a document of this length.
pub open spec fn norm_active(active: bool, len: nat) -> bool {
    active && len > 0
}

/// The selection anchor clamped back into a document of this length.
pub open spec fn norm_anchor(active: bool, anchor: nat, len: nat) -> nat {
    if active && len > 0 && anchor >= len {
        (len - 1) as nat
    } else {
        anchor
    }
}

/// The normalized selection range: anchor and cursor clamped into the
/// document and ordered, absent when no selection is active or the
/// document is empty.
pub open spec fn selection_range_spec(a: App) -> Option<(int, int)> {
    if !a.selection_active || a.lines@.len() == 0 {
        None
    } else {
        let an = clamp_cursor_spec(a.selection_anchor as nat, a.lines@.len()) as int;
        let cu = clamp_cursor_spec(a.cursor as nat, a.lines@.len()) as int;
        if an <= cu {
            Some((an, cu))
        } else {
            Some((cu, an))
        }
    }
}

/// Whether the item at `index` lies in the active selection range.
pub open spec fn sel_contains(a: App, index: int) -> bool {
    match selection_range_spec(a) {
        Some(r) => r.0 <= index <= r.1,
        None => false,
    }
}

/// A fresh task template before any document is seen.
pub fn blank_template() -> (r: Task)
    ensures
        r.indent@ == Seq::<char>::empty(),
        r.bullet@ == "-"@,
        r.completed == false,
        r.text@ == Seq::<char>::empty(),
{
    Task {
        indent: String::new(),
        bullet: String::from_str("-"),
        completed: false,
        text: String::new(),
    }
}

/// The insert template a freshly loaded document yields.
pub fn default_task_template(lines: &Vec<LineItem>) -> (r: Task)
    ensures
        is_default_template(r, lines@),
{
    let n = lines.len();
    let mut i: usize = 0;
    proof {
        assert(lines@.skip(0) =~= lines@);
    }
    while i < n
        invariant
            n == lines@.len(),
            i <= n,
            first_task_spec(lines@) == first_task_spec(lines@.skip(i as int)),
        decreases n - i,
    {
        proof {
            assert(lines@.skip(i as int).drop_first() =~= lines@.skip(i + 1));
            assert(lines@.skip(i as int)[0] == lines@[i as int]);
        }
        if let LineItem::Task(task) = &lines[i] {
            return Task {
                indent: task.indent.clone(),
                bullet: task.bullet.clone(),
                completed: false,
                text: String::new(),
            };
        }
        i = i + 1;
    }
    blank_template()
}

/// Whether an observed modification stamp counts as newer than the last
/// known one.
pub fn is_modified(current: u64, last: u64) -> (r: bool)
    ensures
        r == (current >= last),
{
    current >= last
}

impl App {
    /// A fresh session over an already-loaded document.
    pub fn new(file_name: String, lines: Vec<LineItem>, mod_time: u64) -> (r: App)
        ensures
            r.wf(),
            r.file_name == file_name,
            r.lines == lines,
            r.cursor == 0,
            r.mode == Mode::Normal,
            r.text_input.value@ == Seq::<char>::empty(),
            r.text_input.cursor == 0,
            r.search_input.value@ == Seq::<char>::empty(),
            r.search_input.cursor == 0,
            r.input_placeholder@ == "Describe the task"@,
            r.edit_intent == EditIntent::Idle,
            r.edit_target == EditTarget::Task,
            r.edit_index is None,
            r.insert_index is None,
            is_default_template(r.edit_template, lines@),
            r.status_message@ == Seq::<char>::empty(),
            r.error is None,
            r.last_modified == mod_time,
            !r.pending_reload,
            !r.selection_active,
            r.selection_anchor == 0,
            r.window_width == DEFAULT_WINDOW_WIDTH,
            r.window_height == 0,
            r.renderer_width == 0,
            r.external_edit_idx is None,
            r.undo_stack@ == Seq::<crate::model::UndoState>::empty(),
            r.redo_stack@ == Seq::<crate::model::UndoState>::empty(),
            !r.pending_d,
            r.scroll_offset == 0,
            !r.should_quit,
            !r.pending_save,
            r.pending_save_message@ == Seq::<char>::empty(),
            !r.reload_requested,
    {
        let template = default_task_template(&lines);
        App {
            file_name,
            lines,
            cursor: 0,
            mode: Mode::Normal,
            text_input: TextInput::new(),
            search_input: TextInput::new(),
            input_placeholder: String::from_str("Describe the task"),
            edit_intent: EditIntent::Idle,
            edit_target: EditTarget::Task,
            edit_index: None,
            insert_index: None,
            edit_template: template,
            status_message: String::new(),
            error: None,
            last_modified: mod_time,
            pending_reload: false,
            selection_active: false,
            selection_anchor: 0,
            window_width: DEFAULT_WINDOW_WIDTH,
            window_height: 0,
            renderer_width: 0,
            external_edit_idx: None,
            undo_stack: Vec::new(),
            redo_stack: Vec::new(),
            pending_d: false,
            scroll_offset: 0,
            should_quit: false,
            pending_save: false,
            pending_save_message: String::new(),
            reload_requested: false,
        }
    }

    /// How many of the document's items are tasks.
    pub fn count_tasks(&self) -> (r: usize)
        ensures
            r as nat == count_tasks_spec(self.lines@),
    {
        let n = self.lines.len();
        let mut i: usize = 0;
        let mut count: usize = 0;
        while i < n
            invariant
                n == self.lines@.len(),
                i <= n,
                count as nat == count_tasks_spec(self.lines@.take(i as int)),
                count <= i,
            decreases n - i,
        {
            proof {
                assert(self.lines@.take(i + 1).drop_last() =~= self.lines@.take(i as int));
                assert(self.lines@.take(i + 1).last() == self.lines@[i as int]);
            }
            if self.lines[i].is_task() {
                count = count + 1;
            }
            i = i + 1;
        }
        proof {
            assert(self.lines@.take(n as int) =~= self.lines@);
        }
        count
    }

    /// The normalized selection range, absent when nothing is selected.
    pub fn selection_range(&self) -> (r: Option<(usize, usize)>)
        ensures
            match r {
                Some(p) => selection_range_spec(*self) == Some((p.0 as int, p.1 as int)) && p.0
                    <= p.1 < self.lines@.len(),
                None => selection_range_spec(*self) is None,
            },
    {
        if !self.selection_active || self.lines.len() == 0 {
            return None;
        }
        let anchor = clamp_cursor(self.selection_anchor, self.lines.len());
        let cursor = clamp_cursor(self.cursor, self.lines.len());
        if anchor <= cursor {
            Some((anchor, cursor))
        } else {
            Some((cursor, anchor))
        }
    }

    /// Whether the item at `index` lies in the active selection.
    pub fn is_selected(&self, index: usize) -> (r: bool)
        ensures
            r == sel_contains(*self, index as int),
    {
        match self.selection_range() {
            Some(p) => index >= p.0 && index <= p.1,
            None => false,
        }
    }

    /// Drops the active selection.
    pub fn clear_selection(&mut self)
        ensures
            *final(self) == (App { selection_active: false, ..*old(self) }),
    {
        if self.selection_active {
            self.selection_active = false;
        }
    }

    /// Re-clamps the selection after the document shrank: the anchor moves
    /// back into bounds, and a selection over an empty document is dropped.
    pub fn normalize_selection(&mut self)
        ensures
            *final(self) == (App {
                selection_active: norm_active(old(self).selection_active, old(self).lines@.len()),
                selection_anchor: final(self).selection_anchor,
                ..*old(self)
            }),
            final(self).selection_anchor as nat == norm_anchor(
                old(self).selection_active,
                old(self).selection_anchor as nat,
                old(self).lines@.len(),
            ),
    {
        if !self.selection_active {
            return ;
        }
        if self.lines.len() == 0 {
            self.selection_active = false;
            return ;
        }
        if self.selection_anchor >= self.lines.len() {
            self.selection_anchor = self.lines.len() - 1;
        }
    }

    /// Asks the caller to persist the document, carrying the status message
    /// to show once the save succeeds.
    pub fn save_and_set_status(&mut self, msg: &str)
        ensures
            *final(self) == (App {
                pending_save: true,
                pending_save_message: final(self).pending_save_message,
                ..*old(self)
            }),
            final(self).pending_save_message@ == msg@,
    {
        self.pending_save = true;
        self.pending_save_message = String::from_str(msg);
    }

    /// Records the outcome of the requested save: success installs the new
    /// modification stamp and the carried status message and clears any
    /// error; failure surfaces the error string and leaves the rest alone.
    pub fn apply_save_result(&mut self, result: Result<u64, String>)
        ensures
            match result {
                Ok(t) => *final(self) == (App {
                    last_modified: t,
                    status_message: final(self).status_message,
                    error: None,
                    pending_save: false,
                    ..*old(self)
                }) && final(self).status_message == old(self).pending_save_message,
                Err(e) => *final(self) == (App {
                    error: Some(e),
                    pending_save: false,
                    ..*old(self)
                }),
            },
    {
        self.pending_save = false;
        match result {
            Ok(t) => {
                self.last_modified = t;
                self.status_message = self.pending_save_message.clone();
                self.error = None;
            },
            Err(e) => {
                self.error = Some(e);
            },
        }
    }

    /// Asks the caller to reload the document from disk.
    pub fn request_reload(&mut self)
        ensures
            *final(self) == (App { reload_requested: true, ..*old(self) }),
    {
        self.reload_requested = true;
    }

    /// Installs a freshly loaded document: the cursor is clamped, the
    /// selection re-normalized, the template reseeded, and any error
    /// cleared.
    pub fn apply_reload(&mut self, lines: Vec<LineItem>, mod_time: u64, from_disk: bool)
        requires
            old(self).wf(),
        ensures
            final(self).wf(),
            *final(self) == (App {
                lines: final(self).lines,
                cursor: final(self).cursor,
                selection_active: norm_active(old(self).selection_active, lines@.len()),
                selection_anchor: final(self).selection_anchor,
                last_modified: mod_time,
                edit_template: final(self).edit_template,
                status_message: final(self).status_message,
                error: None,
                reload_requested: false,
                ..*old(self)
            }),
            final(self).lines == lines,
            final(self).cursor as nat == clamp_cursor_spec(old(self).cursor as nat, lines@.len()),
            final(self).selection_anchor as nat == norm_anchor(
                old(self).selection_active,
                old(self).selection_anchor as nat,
                lines@.len(),
            ),
            is_default_template(final(self).edit_template, lines@),
            final(self).status_message@ == if from_disk {
                "Reloaded from disk"@
            } else {
                "Reloaded"@
            },
    {
        self.lines = lines;
        self.cursor = clamp_cursor(self.cursor, self.lines.len());
        self.normalize_selection();
        self.last_modified = mod_time;
        self.edit_template = default_task_template(&self.lines);
        if from_disk {
            self.status_message = String::from_str("Reloaded from disk");
        } else {
            self.status_message = String::from_str("Reloaded");
        }
        self.error = None;
        self.reload_requested = false;
    }

    /// Records that the requested reload failed.
    pub fn apply_load_error(&mut self, err: String)
        ensures
            *final(self) == (App {
                error: Some(err),
                reload_requested: false,
                ..*old(self)
            }),
    {
        self.error = Some(err);
        self.reload_requested = false;
    }

    /// Decides what to do about a fresh modification stamp on disk: while
    /// editing, defer (the caller must not reload now); otherwise ask for
    /// an immediate reload.
    pub fn note_disk_change(&mut self) -> (r: bool)
        ensures
            old(self).mode == Mode::Edit ==> !r && *final(self) == (App {
                pending_reload: true,
                ..*old(self)
            }),
            old(self).mode != Mode::Edit ==> r && *final(self) == *old(self),
    {
        if matches!(self.mode, Mode::Edit) {
            self.pending_reload = true;
            false
        } else {
            true
        }
    }

    /// Begins an external edit of the task under the cursor: hands its text
    /// back for the caller to put before an external editor, and remembers
    /// the index. With no task under the cursor nothing happens.
    pub fn start_external_edit(&mut self) -> (r: Option<String>)
        requires
            old(self).wf(),
        ensures
            final(self).wf(),
            external_edit_started(*old(self), *final(self), r),
    {
        if self.lines.len() == 0 {
            return None;
        }
        if self.cursor >= self.lines.len() {
            return None;
        }
        let text = match &self.lines[self.cursor] {
            LineItem::Task(t) => t.text.clone(),
            _ => { return None },
        };
        self.clear_selection();
        self.external_edit_idx = Some(self.cursor);
        Some(text)
    }

    /// The text the running external edit is about, looked up again by the
    /// remembered index.
    pub fn external_edit_text(&self) -> (r: Option<String>)
        requires
            self.wf(),
        ensures
            match self.external_edit_idx {
                Some(idx) => {
                    if idx < self.lines@.len() && self.lines@[idx as int].is_task_spec() {
                        r == Some(self.lines@[idx as int].task_spec().text)
                    } else {
                        r is None
                    }
                },
                None => r is None,
            },
    {
        if let Some(idx) = self.external_edit_idx {
            if idx < self.lines.len() {
                match &self.lines[idx] {
                    LineItem::Task(t) => {
                        return Some(t.text.clone());
                    },
                    _ => {
                        return None;
                    },
                }
            }
        }
        None
    }

    /// Records the outcome of an external edit: new text overwrites the
    /// remembered task and a save is requested; a whitespace-only result is
    /// rejected with a status message; an editor failure surfaces the
    /// error. The remembered index is dropped in every case.
    pub fn finish_external_edit(&mut self, outcome: Result<Option<String>, String>)
        requires
            old(self).wf(),
        ensures
            final(self).wf(),
            match outcome {
                Ok(opt) => match opt {
                    Some(text) => ({
                        let live = match old(self).external_edit_idx {
                            Some(idx) => idx < old(self).lines@.len() && old(
                                self,
                            ).lines@[idx as int].is_task_spec(),
                            None => false,
                        };
                        if live {
                            let idx = old(self).external_edit_idx->0;
                            &&& *final(self) == (App {
                                lines: final(self).lines,
                                external_edit_idx: None,
                                pending_save: true,
                                pending_save_message: final(self).pending_save_message,
                                ..*old(self)
                            })
                            &&& final(self).lines@ == old(self).lines@.update(
                                idx as int,
                                final(self).lines@[idx as int],
                            )
                            &&& final(self).lines@[idx as int].is_task_spec()
                            &&& final(self).lines@[idx as int].task_spec().text == text
                            &&& final(self).lines@[idx as int].task_spec().indent == old(
                                self,
                            ).lines@[idx as int].task_spec().indent
                            &&& final(self).lines@[idx as int].task_spec().bullet == old(
                                self,
                            ).lines@[idx as int].task_spec().bullet
                            &&& final(self).lines@[idx as int].task_spec().completed == old(
                                self,
                            ).lines@[idx as int].task_spec().completed
                            &&& final(self).pending_save_message@ == "Saved"@
                        } else {
                            *final(self) == (App { external_edit_idx: None, ..*old(self) })
                        }
                    }),
                    None => *final(self) == (App {
                        external_edit_idx: None,
                        status_message: final(self).status_message,
                        ..*old(self)
                    }) && final(self).status_message@ == "Cannot save empty task"@,
                },
                Err(e) => *final(self) == (App {
                    external_edit_idx: None,
                    error: Some(e),
                    status_message: final(self).status_message,
                    ..*old(self)
                }) && final(self).status_message@ == "Editor error"@,
            },
    {
        match outcome {
            Ok(opt) => {
                match opt {
                    Some(text) => {
                        if let Some(idx) = self.external_edit_idx {
                            if idx < self.lines.len() {
                                let keep = self.lines[idx].clone_item();
                                if let LineItem::Task(t) = keep {
                                    self.lines[idx] = LineItem::Task(
                                        Task {
                                            indent: t.indent,
                                            bullet: t.bullet,
                                            completed: t.completed,
                                            text,
                                        },
                                    );
                                    proof {
                                        assert(self.lines@ =~= old(self).lines@.update(
                                            idx as int,
                                            self.lines@[idx as int],
                                        ));
                                    }
                                    self.save_and_set_status("Saved");
                                }
                            }
                        }
                    },
                    None => {
                        self.status_message = String::from_str("Cannot save empty task");
                    },
                }
            },
            Err(e) => {
                self.error = Some(e);
                self.status_message = String::from_str("Editor error");
            },
        }
        self.external_edit_idx = None;
    }

    /// Deletes the current line, dispatching on its kind; with an empty
    /// document it only reports that there is nothing to delete.
    pub fn delete_current_line(&mut self)
        requires
            old(self).wf(),
        ensures
            final(self).wf(),
            deleted_line(*old(self), *final(self)),
    {
        if self.lines.len() == 0 {
            self.status_message = String::from_str("Nothing to delete");
            return ;
        }
        if self.cursor < self.lines.len() && self.lines[self.cursor].is_section() {
            self.delete_current_section();
        } else {
            self.delete_current_task();
        }
    }

    /// Deletes the task under the cursor after an undo snapshot; the cursor
    /// clamps to the shortened document and a save is requested.
    pub fn delete_current_task(&mut self)
        requires
            old(self).wf(),
        ensures
            final(self).wf(),
            deleted_task(*old(self), *final(self)),
    {
        let live = self.lines.len() > 0 && self.cursor < self.lines.len()
            && self.lines[self.cursor].is_task();
        if !live {
            self.status_message = String::from_str("No task to delete");
            return ;
        }
        self.save_undo_state();
        self.clear_selection();
        self.lines.remove(self.cursor);
        self.cursor = clamp_cursor(self.cursor, self.lines.len());
        self.save_and_set_status("Deleted task");
    }

    /// Deletes the section under the cursor after an undo snapshot; the
    /// cursor lands on the item that preceded the removed header and a
    /// save is requested.
    pub fn delete_current_section(&mut self)
        requires
            old(self).wf(),
        ensures
            final(self).wf(),
            deleted_section(*old(self), *final(self)),
    {
        let live = self.lines.len() > 0 && self.cursor < self.lines.len()
            && self.lines[self.cursor].is_section();
        if !live {
            self.status_message = String::from_str("No section to delete");
            return ;
        }
        self.save_undo_state();
        self.clear_selection();
        self.lines.remove(self.cursor);
        let back = if self.cursor > 0 {
            self.cursor - 1
        } else {
            0
        };
        self.cursor = clamp_cursor(back, self.lines.len());
        self.save_and_set_status("Deleted section");
    }
}

/// The current line was deleted, dispatching on its kind; with an empty
/// document only a status message changed.
pub open spec fn deleted_line(pre: App, post: App) -> bool {
    &&& (pre.lines@.len() == 0 ==> post == (App {
        status_message: post.status_message,
        ..pre
    }) && post.status_message@ == "Nothing to delete"@)
    &&& (pre.lines@.len() > 0 && pre.cursor < pre.lines@.len()
        && pre.lines@[pre.cursor as int].is_section_spec() ==> deleted_section(pre, post))
    &&& (pre.lines@.len() > 0 && !(pre.cursor < pre.lines@.len()
        && pre.lines@[pre.cursor as int].is_section_spec()) ==> deleted_task(pre, post))
}

/// An external edit began on the task under the cursor: its text was
/// handed out, its index remembered, and the selection cleared; with no
/// task under the cursor nothing happened and nothing was handed out.
pub open spec fn external_edit_started(pre: App, post: App, r: Option<String>) -> bool {
    let live = pre.lines@.len() > 0 && pre.cursor < pre.lines@.len()
        && pre.lines@[pre.cursor as int].is_task_spec();
    if live {
        &&& post == (App {
            selection_active: false,
            external_edit_idx: Some(pre.cursor),
            ..pre
        })
        &&& r == Some(pre.lines@[pre.cursor as int].task_spec().text)
    } else {
        &&& post == pre
        &&& r is None
    }
}

/// The task under the cursor was removed after a snapshot: the document
/// lost exactly that item, the cursor clamped, the selection cleared, and
/// a save was requested; with no task under the cursor only a status
/// message changed.
pub open spec fn deleted_task(pre: App, post: App) -> bool {
    let live = pre.lines@.len() > 0 && pre.cursor < pre.lines@.len()
        && pre.lines@[pre.cursor as int].is_task_spec();
    if live {
        &&& post == (App {
            lines: post.lines,
            cursor: post.cursor,
            undo_stack: post.undo_stack,
            redo_stack: post.redo_stack,
            selection_active: false,
            pending_save: true,
            pending_save_message: post.pending_save_message,
            ..pre
        })
        &&& post.lines@ == pre.lines@.remove(pre.cursor as int)
        &&& post.cursor as nat == clamp_cursor_spec(pre.cursor as nat, post.lines@.len())
        &&& hist_of(post).undo == snapshot_step(hist_of(pre)).undo
        &&& hist_of(post).redo == snapshot_step(hist_of(pre)).redo
        &&& post.pending_save_message@ == "Deleted task"@
    } else {
        &&& post == (App { status_message: post.status_message, ..pre })
        &&& post.status_message@ == "No task to delete"@
    }
}

/// The section under the cursor was removed after a snapshot: the document
/// lost exactly that item, the cursor stepped back one (clamped), the
/// selection cleared, and a save was requested; with no section under the
/// cursor only a status message changed.
pub open spec fn deleted_section(pre: App, post: App) -> bool {
    let live = pre.lines@.len() > 0 && pre.cursor < pre.lines@.len()
        && pre.lines@[pre.cursor as int].is_section_spec();
    if live {
        &&& post == (App {
            lines: post.lines,
            cursor: post.cursor,
            undo_stack: post.undo_stack,
            redo_stack: post.redo_stack,
            selection_active: false,
            pending_save: true,
            pending_save_message: post.pending_save_message,
            ..pre
        })
        &&& post.lines@ == pre.lines@.remove(pre.cursor as int)
        &&& post.cursor as nat == clamp_cursor_spec(
            if pre.cursor > 0 {
                (pre.cursor - 1) as nat
            } else {
                0nat
            },
            post.lines@.len(),
        )
        &&& hist_of(post).undo == snapshot_step(hist_of(pre)).undo
        &&& hist_of(post).redo == snapshot_step(hist_of(pre)).redo
        &&& post.pending_save_message@ == "Deleted section"@
    } else {
        &&& post == (App { status_message: post.status_message, ..pre })
        &&& post.status_message@ == "No section to delete"@
    }
}

} // verus!
