//! The editor state: the currently selected brush and the owned level grid,
//! mutated by the commands the user interface dispatches.

use vstd::prelude::*;
use vstd::string::StringExecFns;

use crate::level::Level;
use crate::level::COLUMNS;
use crate::level::HEIGHT_MAX;
use crate::level::ROWS;
use crate::level::SPRITE_NONE;
use crate::level::WIDTH_MAX;

verus! {

/// Editor state: the brush (current tile code and object name) and the level
/// being edited.
pub struct Editor {
    pub current_tile: char,
    pub current_object: String,
    pub level: Level,
}

impl Default for Editor {
    /// A fresh editor: empty brush named "none", over a one-screen level.
    fn default() -> (e: Editor)
        ensures
            e.current_tile == SPRITE_NONE,
            e.current_object@ == "none"@,
            e.level.width == 1,
            e.level.height == 1,
            e.level.wf(),
            e.level.all_empty(),
    {
        Editor {
            current_tile: SPRITE_NONE,
            current_object: String::from_str("none"),
            level: Level::new(1, 1),
        }
    }
}

impl Editor {
    /// Selects the brush: any code is accepted, palette membership is not
    /// checked. The level is untouched.
    pub fn select_tool(&mut self, name: String, code: char)
        ensures
            final(self).current_tile == code,
            final(self).current_object == name,
            final(self).level == old(self).level,
    {
        self.current_object = name;
        self.current_tile = code;
    }

    /// Paints the cell at `(row, col)` with the brush's tile code; every
    /// other cell, the dimensions and the brush are unchanged.
    pub fn paint(&mut self, row: usize, col: usize)
        requires
            old(self).level.wf(),
            row < ROWS * old(self).level.height,
            col < COLUMNS * old(self).level.width,
        ensures
            final(self).current_tile == old(self).current_tile,
            final(self).current_object == old(self).current_object,
            final(self).level.wf(),
            final(self).level.width == old(self).level.width,
            final(self).level.height == old(self).level.height,
            final(self).level.grid() == old(self).level.grid().update(
                row as int,
                old(self).level.grid()[row as int].update(
                    col as int,
                    old(self).current_tile,
                ),
            ),
    {
        let code = self.current_tile;
        self.level.set_cell(row, col, code);
    }

    /// Widens the level by one screen, clamped at `WIDTH_MAX`: at the limit
    /// nothing changes; otherwise the grid is rebuilt with every cell empty.
    pub fn grow_width(&mut self)
        requires
            old(self).level.wf(),
        ensures
            final(self).current_tile == old(self).current_tile,
            final(self).current_object == old(self).current_object,
            final(self).level.wf(),
            final(self).level.height == old(self).level.height,
            old(self).level.width == WIDTH_MAX ==> *final(self) == *old(self),
            old(self).level.width < WIDTH_MAX ==> final(self).level.width == old(
                self,
            ).level.width + 1,
            old(self).level.width < WIDTH_MAX ==> final(self).level.all_empty(),
    {
        if self.level.width == WIDTH_MAX {
            return;
        }
        let w = self.level.width + 1;
        let h = self.level.height;
        self.level = Level::new(w, h);
    }

    /// Narrows the level by one screen, clamped at width 1: at the limit
    /// nothing changes; otherwise the grid is rebuilt with every cell empty.
    pub fn shrink_width(&mut self)
        requires
            old(self).level.wf(),
        ensures
            final(self).current_tile == old(self).current_tile,
            final(self).current_object == old(self).current_object,
            final(self).level.wf(),
            final(self).level.height == old(self).level.height,
            old(self).level.width == 1 ==> *final(self) == *old(self),
            old(self).level.width > 1 ==> final(self).level.width == old(
                self,
            ).level.width - 1,
            old(self).level.width > 1 ==> final(self).level.all_empty(),
    {
        if self.level.width == 1 {
            return;
        }
        let w = self.level.width - 1;
        let h = self.level.height;
        self.level = Level::new(w, h);
    }

    /// Heightens the level by one screen, clamped at `HEIGHT_MAX`: at the
    /// limit nothing changes; otherwise the grid is rebuilt all empty.
    pub fn grow_height(&mut self)
        requires
            old(self).level.wf(),
        ensures
            final(self).current_tile == old(self).current_tile,
            final(self).current_object == old(self).current_object,
            final(self).level.wf(),
            final(self).level.width == old(self).level.width,
            old(self).level.height == HEIGHT_MAX ==> *final(self) == *old(self),
            old(self).level.height < HEIGHT_MAX ==> final(self).level.height == old(
                self,
            ).level.height + 1,
            old(self).level.height < HEIGHT_MAX ==> final(self).level.all_empty(),
    {
        if self.level.height == HEIGHT_MAX {
            return;
        }
        let w = self.level.width;
        let h = self.level.height + 1;
        self.level = Level::new(w, h);
    }

    /// Shortens the level by one screen, clamped at height 1: at the limit
    /// nothing changes; otherwise the grid is rebuilt all empty.
    pub fn shrink_height(&mut self)
        requires
            old(self).level.wf(),
        ensures
            final(self).current_tile == old(self).current_tile,
            final(self).current_object == old(self).current_object,
            final(self).level.wf(),
            final(self).level.width == old(self).level.width,
            old(self).level.height == 1 ==> *final(self) == *old(self),
            old(self).level.height > 1 ==> final(self).level.height == old(
                self,
            ).level.height - 1,
            old(self).level.height > 1 ==> final(self).level.all_empty(),
    {
        if self.level.height == 1 {
            return;
        }
        let w = self.level.width;
        let h = self.level.height - 1;
        self.level = Level::new(w, h);
    }

    /// Serializes the current level; see [`crate::level::render`].
    pub fn serialize(&self) -> (text: String)
        requires
            self.level.wf(),
        ensures
            text@ == crate::level::render(self.level.grid()),
    {
        self.level.serialize()
    }
}

} // verus!
