//! What the program reads of a terminal's screen.
use vstd::prelude::*;

verus! {

/// A cell of the screen.
#[derive(Debug, PartialEq, Eq)]
pub struct Cell {
    /// The text that the cell adds to its row: a character and what combines with it, nothing in the
    /// second cell of a wide character.
    pub text: String,
    /// Whether this is the second cell of a wide character.
    pub wide_spacer: bool,
}

impl Default for Cell {
    fn default() -> (cell: Self)
        ensures
            cell.text@ == " "@,
            !cell.wide_spacer,
    {
        Cell { text: " ".to_owned(), wide_spacer: false }
    }
}

/// Which pointer events the program in the terminal asked for.
#[derive(Clone, Copy, Debug, PartialEq, Eq, Structural)]
pub enum MouseTrackingMode {
    /// None.
    Off,
    /// Buttons.
    Press,
    /// Buttons, and motion while one is held.
    ButtonMotion,
    /// Buttons and all motion.
    AnyMotion,
}

impl MouseTrackingMode {
    /// Whether any pointer event was asked for.
    pub fn enabled(self) -> (enabled: bool)
        ensures
            enabled == !(self is Off),
    {
        match self {
            MouseTrackingMode::Off => false,
            _ => true,
        }
    }
}

/// What the program reads of a terminal's screen.
pub struct TermGrid {
    /// The columns that are shown.
    pub cols: usize,
    /// The rows that are shown.
    pub visible_rows: usize,
    /// The rows of the screen.
    pub lines: Vec<Vec<Cell>>,
    /// The rows that left the screen, the oldest first.
    pub scrollback: Vec<Vec<Cell>>,
    /// Whether the alternate screen is shown, which has no history.
    pub is_alt: bool,
    /// Changes whenever a row does.
    pub content_generation: u64,
    /// The selected cells: column and row of both ends.
    pub selection: Option<(usize, usize, usize, usize)>,
    /// The pointer events that are reported.
    pub mouse_tracking_mode: MouseTrackingMode,
    /// Whether they are reported in the form without limits.
    pub mouse_sgr: bool,
    /// Whether the cursor keys send their application form.
    pub app_cursor_keys: bool,
    /// Whether pasted text is marked.
    pub bracketed_paste: bool,
    /// Whether the focus is reported.
    pub focus_reporting: bool,
}

/// The rows that are searched, shown and selected: the history above the screen, or the alternate
/// screen alone.
pub open spec fn all_rows(grid: TermGrid) -> Seq<Vec<Cell>> {
    if grid.is_alt {
        grid.lines@
    } else {
        grid.scrollback@ + grid.lines@
    }
}

impl TermGrid {
    /// A blank screen.
    pub fn new(cols: usize, rows: usize) -> (grid: Self)
        ensures
            grid.cols == cols,
            grid.visible_rows == rows,
            grid.lines@.len() == rows,
            forall|y: int|
                0 <= y < rows ==> {
                    &&& (#[trigger] grid.lines@[y])@.len() == cols
                    &&& forall|x: int|
                        0 <= x < cols ==> (#[trigger] grid.lines@[y]@[x]).text@ == " "@
                            && !grid.lines@[y]@[x].wide_spacer
                },
            grid.scrollback@.len() == 0,
            !grid.is_alt,
            grid.content_generation == 0,
            grid.selection is None,
            grid.mouse_tracking_mode is Off,
            !grid.mouse_sgr,
            !grid.app_cursor_keys,
            !grid.bracketed_paste,
            !grid.focus_reporting,
            grid.wf(),
    {
        let mut lines: Vec<Vec<Cell>> = Vec::new();
        let mut y: usize = 0;
        while y < rows
            invariant
                y <= rows,
                lines@.len() == y,
                forall|i: int|
                    0 <= i < y ==> {
                        &&& (#[trigger] lines@[i])@.len() == cols
                        &&& forall|x: int|
                            0 <= x < cols ==> (#[trigger] lines@[i]@[x]).text@ == " "@
                                && !lines@[i]@[x].wide_spacer
                    },
            decreases rows - y,
        {
            let mut row: Vec<Cell> = Vec::new();
            let mut x: usize = 0;
            while x < cols
                invariant
                    x <= cols,
                    row@.len() == x,
                    forall|i: int|
                        0 <= i < x ==> (#[trigger] row@[i]).text@ == " "@ && !row@[i].wide_spacer,
                decreases cols - x,
            {
                row.push(Cell::default());
                x += 1;
            }
            lines.push(row);
            y += 1;
        }
        TermGrid {
            cols,
            visible_rows: rows,
            lines,
            scrollback: Vec::new(),
            is_alt: false,
            content_generation: 0,
            selection: None,
            mouse_tracking_mode: MouseTrackingMode::Off,
            mouse_sgr: false,
            app_cursor_keys: false,
            bracketed_paste: false,
            focus_reporting: false,
        }
    }

    /// The row of a number, counted from the oldest.
    pub fn row(&self, y: usize) -> (row: Option<&Vec<Cell>>)
        ensures
            row is Some <==> y < all_rows(*self).len(),
            row is Some ==> *row->0 == all_rows(*self)[y as int],
    {
        if self.is_alt {
            if y < self.lines.len() {
                Some(&self.lines[y])
            } else {
                None
            }
        } else if y < self.scrollback.len() {
            Some(&self.scrollback[y])
        } else if y - self.scrollback.len() < self.lines.len() {
            Some(&self.lines[y - self.scrollback.len()])
        } else {
            None
        }
    }

    /// Whether the rows can be counted, as those of any screen in memory can.
    pub open spec fn wf(self) -> bool {
        all_rows(self).len() <= usize::MAX
    }

    /// The number of rows.
    pub fn total_lines(&self) -> (total: usize)
        requires
            self.wf(),
        ensures
            total == all_rows(*self).len(),
    {
        if self.is_alt {
            self.lines.len()
        } else {
            self.scrollback.len() + self.lines.len()
        }
    }
}

} // verus!
