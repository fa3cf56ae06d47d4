//! The size of a terminal, in the units of its grid and of its pty.

use vstd::prelude::*;

verus! {

/// The size of the pty: its lines and columns, and the pixels of one cell.
#[derive(Copy, Clone, Debug, PartialEq, Eq, Structural)]
pub struct WindowSize {
    pub num_lines: u16,
    pub num_cols: u16,
    pub cell_width: u16,
    pub cell_height: u16,
}

/// The size of the emulator's screen.
#[derive(Copy, Clone, Debug, PartialEq, Eq, Structural)]
pub struct TermSize {
    pub columns: usize,
    pub screen_lines: usize,
}

/// The size of a terminal's grid, with the size of a cell in whole pixels.
#[derive(Copy, Clone, Debug, PartialEq, Eq, Structural)]
pub struct GridSize {
    pub num_lines: usize,
    pub num_columns: usize,
    pub cell_width: u16,
    pub line_height: u16,
}

/// The number that is left of a count in sixteen bits.
pub open spec fn low_bits(count: usize) -> int {
    count as int % 0x1_0000
}

fn low_half(count: usize) -> (low: u16)
    ensures
        low as int == low_bits(count),
{
    (count % 0x1_0000) as u16
}

/// The size of a pty for a grid. Counts that sixteen bits cannot hold lose their upper bits.
pub open spec fn window_size_of(grid: GridSize) -> WindowSize {
    WindowSize {
        num_lines: low_bits(grid.num_lines) as u16,
        num_cols: low_bits(grid.num_columns) as u16,
        cell_width: grid.cell_width,
        cell_height: grid.line_height,
    }
}

impl GridSize {
    /// The lines of the screen.
    pub fn screen_lines(&self) -> (lines: usize)
        ensures
            lines == self.num_lines,
    {
        self.num_lines
    }

    /// The lines of the screen and of its history. There is no history to count yet.
    pub fn total_lines(&self) -> (lines: usize)
        ensures
            lines == self.num_lines,
    {
        self.screen_lines()
    }

    /// The columns of the screen.
    pub fn columns(&self) -> (columns: usize)
        ensures
            columns == self.num_columns,
    {
        self.num_columns
    }

    /// The size of a pty for this grid. Counts that sixteen bits cannot hold lose their upper bits.
    pub fn into_window_size(self) -> (size: WindowSize)
        ensures
            size == window_size_of(self),
            self.num_lines <= u16::MAX ==> size.num_lines == self.num_lines,
            self.num_columns <= u16::MAX ==> size.num_cols == self.num_columns,
            size.cell_width == self.cell_width,
            size.cell_height == self.line_height,
    {
        WindowSize {
            num_lines: low_half(self.screen_lines()),
            num_cols: low_half(self.columns()),
            cell_width: self.cell_width,
            cell_height: self.line_height,
        }
    }
}

/// The screen of an emulator that goes with a pty's size.
pub open spec fn screen_for(size: WindowSize) -> TermSize {
    TermSize { columns: size.num_cols as usize, screen_lines: size.num_lines as usize }
}

/// A terminal whose pty was sized for a grid has a screen of that grid's lines and columns, as long
/// as sixteen bits hold them.
pub proof fn law_screen_of_grid(grid: GridSize)
    requires
        grid.num_lines <= u16::MAX,
        grid.num_columns <= u16::MAX,
    ensures
        screen_for(window_size_of(grid)) == (TermSize {
            columns: grid.num_columns,
            screen_lines: grid.num_lines,
        }),
{
}

/// The pty of a grid has the grid's lines, columns, cell width and line height, each in its own place,
/// as long as sixteen bits hold them; larger counts differ from the grid's by what those bits lose.
pub proof fn law_window_of_grid(grid: GridSize)
    ensures
        ({
            let size = window_size_of(grid);
            &&& size.cell_width == grid.cell_width
            &&& size.cell_height == grid.line_height
            &&& grid.num_lines <= u16::MAX ==> size.num_lines == grid.num_lines
            &&& grid.num_columns <= u16::MAX ==> size.num_cols == grid.num_columns
            &&& (grid.num_lines - size.num_lines) % 65536 == 0
            &&& (grid.num_columns - size.num_cols) % 65536 == 0
        }),
{
}

/// The screen that goes with a pty has as many columns and as many lines as it, each in its own place,
/// whatever the size of a cell.
pub proof fn law_screen_of_window(size: WindowSize)
    ensures
        screen_for(size).columns == size.num_cols,
        screen_for(size).screen_lines == size.num_lines,
{
}

} // verus!
