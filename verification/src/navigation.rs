//! The cursor: a position on the panel's grid of two columns and three
//! rows, and whether the cell under it is being browsed or edited.

use vstd::prelude::*;
use embedded_graphics::geometry::Point;
use crate::cache::{Position, ROW_TEMPERATURE};
use crate::geometry::{pixel_of, translate_point};

verus! {

/// Columns of the grid.
pub const X_MAX: i32 = 2;

/// Rows of the grid.
pub const Y_MAX: i32 = 3;

/// Whether a position lies on the grid.
pub open spec fn on_grid(position: Position) -> bool {
    0 <= position.0 < X_MAX && 0 <= position.1 < Y_MAX
}

/// One cell to the left, or the same cell at the left edge.
pub open spec fn left_of(position: Position) -> Position {
    if position.0 > 0 {
        ((position.0 - 1) as i32, position.1)
    } else {
        position
    }
}

/// One cell to the right, or the same cell at the right edge.
pub open spec fn right_of(position: Position) -> Position {
    if position.0 < X_MAX - 1 {
        ((position.0 + 1) as i32, position.1)
    } else {
        position
    }
}

/// One cell up, or the same cell at the top edge.
pub open spec fn above(position: Position) -> Position {
    if position.1 > 0 {
        (position.0, (position.1 - 1) as i32)
    } else {
        position
    }
}

/// One cell down, or the same cell at the bottom edge.
pub open spec fn below(position: Position) -> Position {
    if position.1 < Y_MAX - 1 {
        (position.0, (position.1 + 1) as i32)
    } else {
        position
    }
}

/// The mode after a request to change it at a position: browsing turns into
/// editing except on the temperature row, editing turns into browsing.
pub open spec fn toggled(mode: Mode, position: Position) -> Mode {
    match mode {
        Mode::Navigation => if position.1 < ROW_TEMPERATURE {
            Mode::Update
        } else {
            Mode::Navigation
        },
        Mode::Update => Mode::Navigation,
    }
}

/// What the cursor is doing.
#[derive(Clone, Copy, Debug, PartialEq, Eq, Structural)]
pub enum Mode {
    /// Moving between cells.
    Navigation,
    /// Changing the value of the cell under the cursor.
    Update,
}

impl Default for Mode {
    fn default() -> (mode: Mode)
        ensures
            mode == Mode::Navigation,
    {
        Mode::Navigation
    }
}

/// The cursor. It never leaves the grid.
#[derive(Clone, Copy, Debug, PartialEq, Eq)]
pub struct Navigation {
    // x, y
    position: (i32, i32),
    mode: Mode,
}

impl Default for Navigation {
    /// The cursor as the panel starts: browsing, on the top left cell.
    fn default() -> (nav: Navigation)
        ensures
            nav.position() == (0i32, 0i32),
            nav.mode() == Mode::Navigation,
    {
        Navigation { position: (0, 0), mode: Mode::Navigation }
    }
}

impl Navigation {
    #[verifier::type_invariant]
    closed spec fn wf(self) -> bool {
        on_grid(self.position)
    }

    /// Where the cursor is.
    pub closed spec fn position(&self) -> Position {
        self.position
    }

    /// What the cursor is doing.
    pub closed spec fn mode(&self) -> Mode {
        self.mode
    }

    /// Where the cursor is: always a cell of the grid.
    pub fn get_position(&self) -> (position: (i32, i32))
        ensures
            position == self.position(),
            on_grid(position),
    {
        proof {
            use_type_invariant(self);
        }
        self.position
    }

    /// Where on the display the cell under the cursor starts.
    pub fn get_point(&self) -> (point: Point)
        ensures
            point == pixel_of(self.position()),
    {
        proof {
            use_type_invariant(self);
        }
        translate_point(self.position)
    }

    /// Moves one cell to the left; at the left edge the cursor stays.
    pub fn move_left(&mut self)
        ensures
            final(self).position() == left_of(old(self).position()),
            final(self).mode() == old(self).mode(),
            on_grid(final(self).position()),
    {
        proof {
            use_type_invariant(&*self);
        }
        if self.position.0 > 0 {
            self.position.0 -= 1;
        }
    }

    /// Moves one cell to the right; at the right edge the cursor stays.
    pub fn move_right(&mut self)
        ensures
            final(self).position() == right_of(old(self).position()),
            final(self).mode() == old(self).mode(),
            on_grid(final(self).position()),
    {
        proof {
            use_type_invariant(&*self);
        }
        if self.position.0 < X_MAX - 1 {
            self.position.0 += 1;
        }
    }

    /// Moves one cell up; at the top edge the cursor stays.
    pub fn move_up(&mut self)
        ensures
            final(self).position() == above(old(self).position()),
            final(self).mode() == old(self).mode(),
            on_grid(final(self).position()),
    {
        proof {
            use_type_invariant(&*self);
        }
        if self.position.1 > 0 {
            self.position.1 -= 1;
        }
    }

    /// Moves one cell down; at the bottom edge the cursor stays.
    pub fn move_down(&mut self)
        ensures
            final(self).position() == below(old(self).position()),
            final(self).mode() == old(self).mode(),
            on_grid(final(self).position()),
    {
        proof {
            use_type_invariant(&*self);
        }
        if self.position.1 < Y_MAX - 1 {
            self.position.1 += 1;
        }
    }

    /// Starts editing the cell under the cursor, or ends it. On the
    /// temperature row there is nothing to edit, and the cursor goes on
    /// browsing.
    pub fn change_mode(&mut self)
        ensures
            final(self).position() == old(self).position(),
            final(self).mode() == toggled(old(self).mode(), old(self).position()),
    {
        proof {
            use_type_invariant(&*self);
        }
        match self.mode {
            Mode::Navigation => {
                if self.position.1 < ROW_TEMPERATURE {
                    self.mode = Mode::Update;
                }
            },
            Mode::Update => self.mode = Mode::Navigation,
        }
    }

    pub fn get_mode(&self) -> (mode: &Mode)
        ensures
            *mode == self.mode(),
    {
        &self.mode
    }
}

} // verus!
