//! Bounded snapshot stacks for undo and redo. Any snapshotting mutation
//! pushes the pre-mutation document; undo restores it and moves the current
//! document onto the redo stack, and redo is symmetric. The two stacks
//! together never hold more than `MAX_UNDO_HISTORY` snapshots.

use vstd::prelude::*;
use vstd::string::StringExecFns;

use crate::edit::clamp_cursor;
use crate::edit::clamp_cursor_spec;
use crate::model::App;
use crate::model::LineItem;
use crate::model::MAX_UNDO_HISTORY;
use crate::model::UndoState;
use crate::model::clone_lines;

verus! {

/// The mathematical view of the parts of the session that undo and redo
/// touch: the document, the cursor, and the two snapshot stacks, where a
/// snapshot is a document together with a cursor.
pub struct HistView {
    pub lines: Seq<LineItem>,
    pub cursor: nat,
    pub undo: Seq<(Seq<LineItem>, nat)>,
    pub redo: Seq<(Seq<LineItem>, nat)>,
}

/// The snapshot a stack entry denotes.
pub open spec fn snap_view(u: UndoState) -> (Seq<LineItem>, nat) {
    (u.lines@, u.cursor as nat)
}

/// The history view of a session.
pub open spec fn hist_of(a: App) -> HistView {
    HistView {
        lines: a.lines@,
        cursor: a.cursor as nat,
        undo: a.undo_stack@.map_values(|u: UndoState| snap_view(u)),
        redo: a.redo_stack@.map_values(|u: UndoState| snap_view(u)),
    }
}

/// A stack after a snapshot is pushed: the snapshot goes on top and, when
/// the stack is full, the oldest entry falls off the bottom.
pub open spec fn pushed_bounded(
    stack: Seq<(Seq<LineItem>, nat)>,
    snap: (Seq<LineItem>, nat),
) -> Seq<(Seq<LineItem>, nat)> {
    let p = stack.push(snap);
    if p.len() > MAX_UNDO_HISTORY as int {
        p.drop_first()
    } else {
        p
    }
}

/// The effect of taking an undo snapshot: the current document and cursor
/// go on top of the undo stack and the redo stack is cleared.
pub open spec fn snapshot_step(h: HistView) -> HistView {
    HistView {
        undo: pushed_bounded(h.undo, (h.lines, h.cursor)),
        redo: Seq::<(Seq<LineItem>, nat)>::empty(),
        ..h
    }
}

/// The effect of a mutation on the history view: the document and cursor
/// change, the stacks stay.
pub open spec fn mutate_step(h: HistView, lines: Seq<LineItem>, cursor: nat) -> HistView {
    HistView { lines: lines, cursor: cursor, ..h }
}

/// The effect of undo on a state with a non-empty undo stack.
pub open spec fn undo_step(h: HistView) -> HistView
    recommends
        h.undo.len() > 0,
{
    let snap = h.undo.last();
    HistView {
        lines: snap.0,
        cursor: clamp_cursor_spec(snap.1, snap.0.len()),
        undo: h.undo.drop_last(),
        redo: h.redo.push((h.lines, h.cursor)),
    }
}

/// The effect of redo on a state with a non-empty redo stack.
pub open spec fn redo_step(h: HistView) -> HistView
    recommends
        h.redo.len() > 0,
{
    let snap = h.redo.last();
    HistView {
        lines: snap.0,
        cursor: clamp_cursor_spec(snap.1, snap.0.len()),
        redo: h.redo.drop_last(),
        undo: h.undo.push((h.lines, h.cursor)),
    }
}

/// Undo and redo are exact inverses around a snapshotted mutation: take a
/// snapshot of document `h.lines`, mutate the document to `d1`, and undo
/// restores a document equal to `h.lines` (the cursor aside), after which
/// redo restores `d1`.
pub proof fn lemma_undo_redo_inverse(h: HistView, d1: Seq<LineItem>, c1: nat)
    ensures
        undo_step(mutate_step(snapshot_step(h), d1, c1)).lines == h.lines,
        redo_step(undo_step(mutate_step(snapshot_step(h), d1, c1))).lines == d1,
{
}

/// The undo stack never exceeds its bound: a push onto a full stack stays
/// at the bound and discards exactly the oldest entry, keeping the rest in
/// order; a push onto a stack below the bound keeps every entry.
pub proof fn lemma_undo_stack_bounded(stack: Seq<(Seq<LineItem>, nat)>, snap: (Seq<LineItem>, nat))
    requires
        stack.len() <= MAX_UNDO_HISTORY,
    ensures
        pushed_bounded(stack, snap).len() <= MAX_UNDO_HISTORY,
        pushed_bounded(stack, snap).last() == snap,
        stack.len() < MAX_UNDO_HISTORY ==> pushed_bounded(stack, snap) == stack.push(snap),
        stack.len() == MAX_UNDO_HISTORY ==> pushed_bounded(stack, snap).len() == MAX_UNDO_HISTORY
            && (forall|k: int|
            0 <= k < MAX_UNDO_HISTORY - 1 ==> pushed_bounded(stack, snap)[k] == stack[k + 1]),
{
}

/// An undo happened: the top undo snapshot was restored (cursor clamped)
/// and the replaced state moved onto the redo stack; with nothing to undo
/// only a status message changed.
pub open spec fn undone(pre: App, post: App) -> bool {
    &&& (pre.undo_stack@.len() == 0 ==> post == (App {
        status_message: post.status_message,
        ..pre
    }) && post.status_message@ == "Nothing to undo"@)
    &&& (pre.undo_stack@.len() > 0 ==> {
        &&& post == (App {
            lines: post.lines,
            cursor: post.cursor,
            undo_stack: post.undo_stack,
            redo_stack: post.redo_stack,
            status_message: post.status_message,
            ..pre
        })
        &&& hist_of(post) == undo_step(hist_of(pre))
        &&& post.lines == pre.undo_stack@.last().lines
        &&& post.status_message@ == "Undo"@
    })
}

/// A redo happened: the top redo snapshot was restored (cursor clamped)
/// and the replaced state moved back onto the undo stack; with nothing to
/// redo only a status message changed.
pub open spec fn redone(pre: App, post: App) -> bool {
    &&& (pre.redo_stack@.len() == 0 ==> post == (App {
        status_message: post.status_message,
        ..pre
    }) && post.status_message@ == "Nothing to redo"@)
    &&& (pre.redo_stack@.len() > 0 ==> {
        &&& post == (App {
            lines: post.lines,
            cursor: post.cursor,
            undo_stack: post.undo_stack,
            redo_stack: post.redo_stack,
            status_message: post.status_message,
            ..pre
        })
        &&& hist_of(post) == redo_step(hist_of(pre))
        &&& post.lines == pre.redo_stack@.last().lines
        &&& post.status_message@ == "Redo"@
    })
}

impl App {
    /// Pushes a snapshot of the current document and cursor onto the undo
    /// stack, dropping the oldest entry past the bound, and clears the redo
    /// stack.
    pub fn save_undo_state(&mut self)
        requires
            old(self).wf(),
        ensures
            final(self).wf(),
            *final(self) == (App {
                undo_stack: final(self).undo_stack,
                redo_stack: final(self).redo_stack,
                ..*old(self)
            }),
            hist_of(*final(self)) == snapshot_step(hist_of(*old(self))),
            final(self).undo_stack@.len() <= MAX_UNDO_HISTORY,
            final(self).undo_stack@.len() > 0,
            final(self).undo_stack@.last().lines@ == old(self).lines@,
            final(self).undo_stack@.last().cursor == old(self).cursor,
            final(self).redo_stack@ == Seq::<UndoState>::empty(),
    {
        let snap = UndoState { lines: clone_lines(&self.lines), cursor: self.cursor };
        self.undo_stack.push(snap);
        if self.undo_stack.len() > MAX_UNDO_HISTORY {
            self.undo_stack.remove(0);
        }
        self.redo_stack.clear();
        proof {
            let f = |u: UndoState| snap_view(u);
            assert(hist_of(*self).undo =~= snapshot_step(hist_of(*old(self))).undo);
            assert(hist_of(*self).redo =~= snapshot_step(hist_of(*old(self))).redo);
            assert(hist_of(*self) == snapshot_step(hist_of(*old(self))));
        }
    }

    /// Restores the top undo snapshot, first moving the current state onto
    /// the redo stack; with an empty undo stack it only reports that there
    /// is nothing to undo. A restored state is handed back to the caller
    /// for persistence, so undo is itself an observable mutation.
    pub fn undo(&mut self)
        requires
            old(self).wf(),
        ensures
            final(self).wf(),
            undone(*old(self), *final(self)),
    {
        if self.undo_stack.len() == 0 {
            self.status_message = String::from_str("Nothing to undo");
            return ;
        }
        let redo_state = UndoState { lines: clone_lines(&self.lines), cursor: self.cursor };
        self.redo_stack.push(redo_state);
        let state = self.undo_stack.pop();
        match state {
            Some(st) => {
                self.lines = st.lines;
                self.cursor = clamp_cursor(st.cursor, self.lines.len());
                self.status_message = String::from_str("Undo");
            },
            None => {},
        }
        proof {
            assert(hist_of(*self).undo =~= undo_step(hist_of(*old(self))).undo);
            assert(hist_of(*self).redo =~= undo_step(hist_of(*old(self))).redo);
            assert(hist_of(*self) == undo_step(hist_of(*old(self))));
        }
    }

    /// Restores the top redo snapshot, first moving the current state back
    /// onto the undo stack; with an empty redo stack it only reports that
    /// there is nothing to redo.
    pub fn redo(&mut self)
        requires
            old(self).wf(),
        ensures
            final(self).wf(),
            redone(*old(self), *final(self)),
    {
        if self.redo_stack.len() == 0 {
            self.status_message = String::from_str("Nothing to redo");
            return ;
        }
        let undo_state = UndoState { lines: clone_lines(&self.lines), cursor: self.cursor };
        self.undo_stack.push(undo_state);
        let state = self.redo_stack.pop();
        match state {
            Some(st) => {
                self.lines = st.lines;
                self.cursor = clamp_cursor(st.cursor, self.lines.len());
                self.status_message = String::from_str("Redo");
            },
            None => {},
        }
        proof {
            assert(hist_of(*self).undo =~= redo_step(hist_of(*old(self))).undo);
            assert(hist_of(*self).redo =~= redo_step(hist_of(*old(self))).redo);
            assert(hist_of(*self) == redo_step(hist_of(*old(self))));
        }
    }
}

} // verus!
