//! The arithmetic of a paginated list: a window of `viewport` rows over `len`
//! entries, and a selection inside the window.

use vstd::prelude::*;

verus! {

/// Position of a paginated list. `selected` counts from the top of the
/// window, so the selected entry is number `scroll + selected`. A viewport of
/// zero means that no height has been set yet.
pub struct Cursor {
    pub len: nat,
    pub scroll: nat,
    pub selected: nat,
    pub viewport: nat,
}

/// One scrolling step, by entry or by window; `true` is down.
pub enum ScrollOp {
    Entry(bool),
    Window(bool),
}

impl Cursor {
    /// Number of the selected entry.
    pub open spec fn index(self) -> nat {
        self.scroll + self.selected
    }

    /// The selection names an entry of the list.
    pub open spec fn on_entry(self) -> bool {
        self.index() < self.len
    }

    /// The selection names an entry and lies inside the window.
    pub open spec fn in_bounds(self) -> bool {
        self.on_entry() && self.selected < self.viewport
    }

    /// Position of a list that has just been given `len` entries.
    pub open spec fn top(len: nat, viewport: nat) -> Cursor {
        Cursor { len, scroll: 0, selected: 0, viewport }
    }

    /// Moves the selection by one entry. Going down from the last row of the
    /// window moves the window so that the selection stays on its last row;
    /// going up from its first row moves the window up. At either end of the
    /// list nothing changes.
    pub open spec fn scroll_entry(self, down: bool) -> Cursor {
        if down {
            if self.index() + 1 >= self.len {
                self
            } else if self.viewport != 0 && self.selected + 1 >= self.viewport {
                Cursor {
                    scroll: (self.scroll + self.selected + 2 - self.viewport) as nat,
                    selected: (self.viewport - 1) as nat,
                    ..self
                }
            } else {
                Cursor { selected: self.selected + 1, ..self }
            }
        } else if self.selected == 0 && self.scroll != 0 {
            Cursor { scroll: (self.scroll - 1) as nat, ..self }
        } else if self.selected == 0 {
            self
        } else {
            Cursor { selected: (self.selected - 1) as nat, ..self }
        }
    }

    /// Moves the window by one row and leaves the selection on the same row
    /// of the window. The window stops at the first entry and where its last
    /// row shows the last entry.
    pub open spec fn scroll_window(self, down: bool) -> Cursor {
        if down {
            if self.scroll + self.viewport < self.len && self.index() + 1 < self.len {
                Cursor { scroll: self.scroll + 1, ..self }
            } else {
                self
            }
        } else if self.scroll > 0 {
            Cursor { scroll: (self.scroll - 1) as nat, ..self }
        } else {
            self
        }
    }

    /// Selects row `row` of the window.
    pub open spec fn jump(self, row: nat) -> Cursor {
        Cursor { selected: row, ..self }
    }

    /// Rows of the window that show an entry.
    pub open spec fn visible_rows(self) -> nat {
        if self.scroll >= self.len {
            0
        } else if self.len - self.scroll < self.viewport {
            (self.len - self.scroll) as nat
        } else {
            self.viewport
        }
    }

    /// One step of either kind.
    pub open spec fn step(self, op: ScrollOp) -> Cursor {
        match op {
            ScrollOp::Entry(down) => self.scroll_entry(down),
            ScrollOp::Window(down) => self.scroll_window(down),
        }
    }

    /// The steps of `ops`, first to last.
    pub open spec fn run(self, ops: Seq<ScrollOp>) -> Cursor
        decreases ops.len(),
    {
        if ops.len() == 0 {
            self
        } else {
            self.run(ops.drop_last()).step(ops.last())
        }
    }

    /// `n` steps down by entry.
    pub open spec fn down_times(self, n: nat) -> Cursor
        decreases n,
    {
        if n == 0 {
            self
        } else {
            self.down_times((n - 1) as nat).scroll_entry(true)
        }
    }
}

/// A step never changes the list's length or the viewport, and keeps the
/// selection on an entry.
pub proof fn lemma_step_keeps_entry(c: Cursor, op: ScrollOp)
    requires
        c.on_entry(),
    ensures
        c.step(op).on_entry(),
        c.step(op).len == c.len,
        c.step(op).viewport == c.viewport,
{
}

/// A step keeps a selection that is on an entry and inside the window there.
pub proof fn lemma_step_in_bounds(c: Cursor, op: ScrollOp)
    requires
        c.in_bounds(),
    ensures
        c.step(op).in_bounds(),
        c.step(op).len == c.len,
        c.step(op).viewport == c.viewport,
{
}

/// After any sequence of scrolling steps the selection is still on an entry
/// of the list and inside the window.
pub proof fn lemma_run_in_bounds(c: Cursor, ops: Seq<ScrollOp>)
    requires
        c.in_bounds(),
    ensures
        c.run(ops).in_bounds(),
        c.run(ops).len == c.len,
        c.run(ops).viewport == c.viewport,
    decreases ops.len(),
{
    if ops.len() > 0 {
        lemma_run_in_bounds(c, ops.drop_last());
        lemma_step_in_bounds(c.run(ops.drop_last()), ops.last());
    }
}

/// After any sequence of scrolling steps the selection is still on an entry
/// of the list, whatever the height of the window.
pub proof fn lemma_run_on_entry(c: Cursor, ops: Seq<ScrollOp>)
    requires
        c.on_entry(),
    ensures
        c.run(ops).on_entry(),
        c.run(ops).len == c.len,
        c.run(ops).viewport == c.viewport,
    decreases ops.len(),
{
    if ops.len() > 0 {
        lemma_run_on_entry(c, ops.drop_last());
        lemma_step_keeps_entry(c.run(ops.drop_last()), ops.last());
    }
}

/// However a list with at least one entry and a window of at least one row
/// is scrolled from the top, the selection stays on an entry and inside the
/// window.
pub proof fn lemma_scrolled_from_top(len: nat, viewport: nat, ops: Seq<ScrollOp>)
    requires
        len > 0,
        viewport > 0,
    ensures
        Cursor::top(len, viewport).run(ops).in_bounds(),
{
    lemma_run_in_bounds(Cursor::top(len, viewport), ops);
}

/// Each step down advances the selection by one entry until it is on the
/// last one.
pub proof fn lemma_down_times(c: Cursor, n: nat)
    requires
        c.on_entry(),
    ensures
        c.down_times(n).len == c.len,
        c.down_times(n).viewport == c.viewport,
        c.down_times(n).index() == if c.index() + n < c.len {
            c.index() + n
        } else {
            (c.len - 1) as nat
        },
    decreases n,
{
    if n > 0 {
        lemma_down_times(c, (n - 1) as nat);
    }
}

/// Scrolling down as many times as the list has entries, from the top,
/// selects the last entry, and scrolling down again changes nothing.
pub proof fn lemma_down_to_last(len: nat, viewport: nat)
    requires
        len > 0,
    ensures
        Cursor::top(len, viewport).down_times(len).index() == len - 1,
        Cursor::top(len, viewport).down_times(len).scroll_entry(true) == Cursor::top(
            len,
            viewport,
        ).down_times(len),
{
    lemma_down_times(Cursor::top(len, viewport), len);
}

} // verus!
