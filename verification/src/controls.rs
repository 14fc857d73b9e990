//! The decisions of an interactive front end: what a key or a mouse button
//! does to the simulation and to its settings.
//!
//! The front end reads the events, hands them over in the types of this
//! module, and carries out what comes back. Nothing here draws or waits.

use vstd::prelude::*;

use crate::laws::lemma_merge_with_offset_stamps;
use crate::life::{
    acorn_cells, cleared, glider_cells, grid_height, grid_width, same_shape, stamped,
};
use crate::pool::Pool;

verus! {

/// Side of the square that shows a cell, in pixels.
pub const PIXEL_PER_CELL: u32 = 10;

/// Frames per second at full speed.
pub const MAX_FPS: u64 = 165;

/// What one key press adds to the speed or takes from it, in percent.
pub const SPEED_STEP: u8 = 10;

/// The structure that a left click adds to the grid.
#[derive(Clone, Copy, Debug, PartialEq, Eq, Structural)]
pub enum SelectedPoolStructure {
    /// No structure: a single cell.
    Cell,
    Glider,
    Acorn,
}

impl Default for SelectedPoolStructure {
    fn default() -> (selected: Self)
        ensures
            selected == SelectedPoolStructure::Cell,
    {
        SelectedPoolStructure::Cell
    }
}

/// A button of the mouse.
#[derive(Clone, Copy, Debug, PartialEq, Eq, Structural)]
pub enum MouseButton {
    Unknown,
    Left,
    Right,
    Middle,
    X1,
    X2,
    Button6,
    Button7,
    Button8,
}

/// A key of the keyboard: those that do something, and `Other` for the rest.
#[derive(Clone, Copy, Debug, PartialEq, Eq, Structural)]
pub enum Key {
    /// Pauses and resumes.
    Space,
    /// Clears the grid.
    Delete,
    /// Randomizes the grid.
    R,
    /// Shows and hides the help.
    H,
    /// Slows down.
    Left,
    /// Speeds up.
    Right,
    /// Selects the glider, or deselects it.
    NumPad1,
    /// Selects the acorn, or deselects it.
    NumPad2,
    Other,
}

/// The settings that keys and buttons change.
#[derive(Clone, Copy, Debug)]
pub struct Controls {
    /// While set, the simulation does not advance.
    pub paused: bool,
    /// The button that is held down, if any.
    pub mouse_button_pressed: Option<MouseButton>,
    pub selected_pool_structure: SelectedPoolStructure,
    /// Speed in percent of the full speed.
    pub percent_speed: u8,
    /// Whether the help is shown.
    pub render_help: bool,
}

/// The cells of the structure that is selected.
pub open spec fn selected_cells(selected: SelectedPoolStructure) -> Seq<Seq<bool>> {
    match selected {
        SelectedPoolStructure::Cell => seq![seq![true]],
        SelectedPoolStructure::Glider => glider_cells(),
        SelectedPoolStructure::Acorn => acorn_cells(),
    }
}

/// The selection after `chosen` was asked for: asking for the structure that
/// is selected already deselects it.
pub open spec fn toggled(
    current: SelectedPoolStructure,
    chosen: SelectedPoolStructure,
) -> SelectedPoolStructure {
    if current == chosen {
        SelectedPoolStructure::Cell
    } else {
        chosen
    }
}

/// The speed one step down: from 10 percent to 1, which is the least.
pub open spec fn slower(percent: u8) -> u8 {
    if percent == 10 {
        1
    } else if percent > 10 {
        (percent - SPEED_STEP) as u8
    } else {
        percent
    }
}

/// The speed one step up: from 1 percent to 10, and no further than 100.
pub open spec fn faster(percent: u8) -> u8 {
    if percent == 1 {
        10
    } else if percent < 100 {
        (percent + SPEED_STEP) as u8
    } else {
        percent
    }
}

/// Updates per second at `percent` of the full speed, rounded down.
pub open spec fn updates_per_second(percent: u8) -> u64 {
    (MAX_FPS * percent / 100) as u64
}

/// The button held down after `button` was pressed: a press while a button
/// is held is ignored.
pub open spec fn after_press(held: Option<MouseButton>, button: MouseButton) -> Option<
    MouseButton,
> {
    if held is Some {
        held
    } else {
        Some(button)
    }
}

/// The button held down after `button` was released: the release of another
/// button than the one held is ignored.
pub open spec fn after_release(held: Option<MouseButton>, button: MouseButton) -> Option<
    MouseButton,
> {
    match held {
        Some(pressed) => if button != pressed {
            held
        } else {
            None
        },
        None => None,
    }
}

/// The settings after `key` was pressed.
pub open spec fn after_key(controls: Controls, key: Key) -> Controls {
    match key {
        Key::Space => Controls { paused: !controls.paused, ..controls },
        Key::H => Controls { render_help: !controls.render_help, ..controls },
        Key::Left => Controls { percent_speed: slower(controls.percent_speed), ..controls },
        Key::Right => Controls { percent_speed: faster(controls.percent_speed), ..controls },
        Key::NumPad1 => Controls {
            selected_pool_structure: toggled(
                controls.selected_pool_structure,
                SelectedPoolStructure::Glider,
            ),
            ..controls
        },
        Key::NumPad2 => Controls {
            selected_pool_structure: toggled(
                controls.selected_pool_structure,
                SelectedPoolStructure::Acorn,
            ),
            ..controls
        },
        _ => controls,
    }
}

/// Top left corner of the square that shows the cell at `(row, column)`, in
/// pixels down and right of the window's corner.
pub fn get_cell_pixel_coordinates(row: u32, column: u32) -> (corner: (u32, u32))
    requires
        row * PIXEL_PER_CELL <= u32::MAX,
        column * PIXEL_PER_CELL <= u32::MAX,
    ensures
        corner.0 == row * PIXEL_PER_CELL,
        corner.1 == column * PIXEL_PER_CELL,
{
    (row * PIXEL_PER_CELL, column * PIXEL_PER_CELL)
}

impl Controls {
    /// The settings at the start: running at 10 percent, nothing selected,
    /// no button held, help shown.
    pub fn new() -> (controls: Self)
        ensures
            !controls.paused,
            controls.mouse_button_pressed is None,
            controls.selected_pool_structure == SelectedPoolStructure::Cell,
            controls.percent_speed == 10,
            controls.render_help,
    {
        Controls {
            paused: false,
            mouse_button_pressed: None,
            selected_pool_structure: SelectedPoolStructure::Cell,
            percent_speed: 10,
            render_help: true,
        }
    }

    /// The structure that is selected, as a grid of its own.
    pub fn get_selected_pool(&self) -> (pool: Pool)
        ensures
            pool@ == selected_cells(self.selected_pool_structure),
    {
        match self.selected_pool_structure {
            SelectedPoolStructure::Cell => {
                let pool = Pool::from_array(&[[true]]);
                assert(pool@ =~~= seq![seq![true]]);
                pool
            },
            SelectedPoolStructure::Glider => Pool::glider_south_east(),
            SelectedPoolStructure::Acorn => Pool::acorn(),
        }
    }

    /// Updates per second at the current speed.
    pub fn updates_per_second(&self) -> (ups: u64)
        ensures
            ups == updates_per_second(self.percent_speed),
    {
        MAX_FPS * self.percent_speed as u64 / 100
    }

    /// Notes that `button` went down, unless a button is held already.
    pub fn process_mouse_press(&mut self, button: MouseButton)
        ensures
            final(self).mouse_button_pressed == after_press(old(self).mouse_button_pressed, button),
            final(self).paused == old(self).paused,
            final(self).selected_pool_structure == old(self).selected_pool_structure,
            final(self).percent_speed == old(self).percent_speed,
            final(self).render_help == old(self).render_help,
    {
        // Prevent press when already pressed
        if self.mouse_button_pressed.is_some() {
            return ;
        }
        self.mouse_button_pressed = Some(button)
    }

    /// Notes that `button` went up, unless another button is the one held.
    pub fn process_mouse_release(&mut self, button: MouseButton)
        ensures
            final(self).mouse_button_pressed == after_release(
                old(self).mouse_button_pressed,
                button,
            ),
            final(self).paused == old(self).paused,
            final(self).selected_pool_structure == old(self).selected_pool_structure,
            final(self).percent_speed == old(self).percent_speed,
            final(self).render_help == old(self).render_help,
    {
        // Prevent release when no button currently pressed
        if let Some(button_already_pressed) = self.mouse_button_pressed {
            if button != button_already_pressed {
                return ;
            }
        }
        self.mouse_button_pressed = None;
    }

    /// Sets or kills cells depending on the button that is held, with the
    /// cursor over the cell at `(row, column)`: the left button stamps the
    /// selected structure with its corner there, the right button kills the
    /// cell, any other button does nothing.
    pub fn handle_pressed_mouse(&self, pool: &mut Pool, row: u32, column: u32)
        requires
            self.mouse_button_pressed == Some(MouseButton::Left) ==> {
                &&& grid_height(selected_cells(self.selected_pool_structure)) + row <= u32::MAX
                &&& grid_width(selected_cells(self.selected_pool_structure)) + column <= u32::MAX
            },
            self.mouse_button_pressed == Some(MouseButton::Right) ==> {
                &&& row < grid_height(old(pool)@)
                &&& column < grid_width(old(pool)@)
            },
        ensures
            final(pool)@ == match self.mouse_button_pressed {
                Some(MouseButton::Left) => stamped(
                    old(pool)@,
                    selected_cells(self.selected_pool_structure),
                    row as int,
                    column as int,
                ),
                Some(MouseButton::Right) => old(pool)@.update(
                    row as int,
                    old(pool)@[row as int].update(column as int, false),
                ),
                _ => old(pool)@,
            },
    {
        if let Some(pressed_button) = self.mouse_button_pressed {
            match pressed_button {
                MouseButton::Left => {
                    let struct_to_add = self.get_selected_pool();
                    proof {
                        use_type_invariant(&struct_to_add);
                        lemma_merge_with_offset_stamps(
                            pool@,
                            struct_to_add@,
                            row as int,
                            column as int,
                        );
                    }
                    pool.merge(struct_to_add.with_offset(row, column))
                },
                MouseButton::Right => pool.set_cell(row, column, false),
                _ => {},
            }
        }
    }

    /// Selects the given structure to be drawn if it is not selected already.
    /// If it is, deselects it.
    pub fn select_or_deselect_pool(&mut self, selected_pool: SelectedPoolStructure)
        ensures
            final(self).selected_pool_structure == toggled(
                old(self).selected_pool_structure,
                selected_pool,
            ),
            final(self).paused == old(self).paused,
            final(self).mouse_button_pressed == old(self).mouse_button_pressed,
            final(self).percent_speed == old(self).percent_speed,
            final(self).render_help == old(self).render_help,
    {
        self.selected_pool_structure = if self.selected_pool_structure == selected_pool {
            SelectedPoolStructure::Cell
        } else {
            selected_pool
        }
    }

    /// Carries out what `key` stands for. Returns the number of updates per
    /// second to go on with when the key changes the speed.
    pub fn process_keyboard(&mut self, key: Key, pool: &mut Pool) -> (ups: Option<u64>)
        ensures
            *final(self) == after_key(*old(self), key),
            ups == if key == Key::Left || key == Key::Right {
                Some(updates_per_second(final(self).percent_speed))
            } else {
                None
            },
            key == Key::Delete ==> final(pool)@ == cleared(old(pool)@),
            key == Key::R ==> same_shape(final(pool)@, old(pool)@),
            key != Key::Delete && key != Key::R ==> final(pool)@ == old(pool)@,
    {
        match key {
            // Space : Pause / Resume when space is pressed
            Key::Space => {
                self.paused = !self.paused;
                None
            },
            // Del : Clear pool
            Key::Delete => {
                pool.clear();
                None
            },
            // R : Randomize pool
            Key::R => {
                pool.randomize();
                None
            },
            // H : toggle help
            Key::H => {
                self.render_help = !self.render_help;
                None
            },
            // Right / Left : modify speed
            Key::Left => {
                // 10 percent is followed by 1 percent, not by zero.
                if self.percent_speed == 10 {
                    self.percent_speed = 1;
                } else if self.percent_speed > 10 {
                    self.percent_speed -= SPEED_STEP;
                }
                Some(self.updates_per_second())
            },
            Key::Right => {
                if self.percent_speed == 1 {
                    self.percent_speed = 10;
                } else if self.percent_speed < 100 {
                    self.percent_speed += SPEED_STEP;
                }
                Some(self.updates_per_second())
            },
            // 1 : select glider
            Key::NumPad1 => {
                self.select_or_deselect_pool(SelectedPoolStructure::Glider);
                None
            },
            // 2 : select acorn
            Key::NumPad2 => {
                self.select_or_deselect_pool(SelectedPoolStructure::Acorn);
                None
            },
            // Discard other keys
            _ => None,
        }
    }
}

} // verus!
