//! Mouse input: where the pointer is on the map, and what a pointer
//! event changes.

use vstd::prelude::*;

use bevy::ecs::entity::Entity;

use crate::game::components::Position;

verus! {

/// Current mouse state.
#[derive(Debug, Clone, Copy)]
pub struct MouseState {
    /// Current mouse position on screen (column, row).
    pub screen_position: Option<(u16, u16)>,
    /// Current mouse position in world grid (x, y).
    pub grid_position: Option<Position>,
    /// Entity currently being hovered over.
    pub hovered_entity: Option<Entity>,
    /// Whether the left mouse button is pressed.
    pub left_pressed: bool,
    /// Whether the right mouse button is pressed.
    pub right_pressed: bool,
}

impl Default for MouseState {
    fn default() -> (s: Self)
        ensures
            s.screen_position is None,
            s.grid_position is None,
            s.hovered_entity is None,
            !s.left_pressed,
            !s.right_pressed,
    {
        Self {
            screen_position: None,
            grid_position: None,
            hovered_entity: None,
            left_pressed: false,
            right_pressed: false,
        }
    }
}

/// Configuration for converting screen coordinates to grid coordinates.
#[derive(Debug, Clone, Copy)]
pub struct GridViewport {
    /// Offset of the map widget in screen coordinates.
    pub map_offset: (u16, u16),
    /// Size of the map widget in screen coordinates.
    pub map_size: (u16, u16),
    /// Center of the viewport in world coordinates (typically player position).
    pub world_center: Position,
}

impl Default for GridViewport {
    fn default() -> (v: Self)
        ensures
            v.map_offset == (1u16, 1u16),
            v.map_size == (40u16, 20u16),
            v.world_center == (Position { x: 0, y: 0 }),
    {
        Self { map_offset: (1, 1), map_size: (40, 20), world_center: Position::new(0, 0) }
    }
}

impl GridViewport {
    /// The screen cell lies on the map widget.
    pub open spec fn covers(self, sx: int, sy: int) -> bool {
        self.map_offset.0 <= sx < self.map_offset.0 + self.map_size.0 && self.map_offset.1 <= sy
            < self.map_offset.1 + self.map_size.1
    }

    /// The world point shown at a screen cell: the widget's center shows
    /// the world center.
    pub open spec fn world_at(self, sx: int, sy: int) -> (int, int) {
        (
            self.world_center.x + (sx - self.map_offset.0 - self.map_size.0 / 2),
            self.world_center.y + (sy - self.map_offset.1 - self.map_size.1 / 2),
        )
    }

    /// Convert screen coordinates to world grid coordinates.
    pub fn screen_to_grid(&self, screen_x: u16, screen_y: u16) -> (p: Option<Position>)
        requires
            self.covers(screen_x as int, screen_y as int) ==> i32::MIN <= self.world_at(
                screen_x as int,
                screen_y as int,
            ).0 <= i32::MAX && i32::MIN <= self.world_at(screen_x as int, screen_y as int).1
                <= i32::MAX,
        ensures
            p == if self.covers(screen_x as int, screen_y as int) {
                Some(
                    Position {
                        x: self.world_at(screen_x as int, screen_y as int).0 as i32,
                        y: self.world_at(screen_x as int, screen_y as int).1 as i32,
                    },
                )
            } else {
                None
            },
    {
        let ox = self.map_offset.0 as u32;
        let oy = self.map_offset.1 as u32;
        let sx = screen_x as u32;
        let sy = screen_y as u32;
        if sx < ox || sy < oy || sx >= ox + self.map_size.0 as u32 || sy >= oy
            + self.map_size.1 as u32 {
            return None;
        }
        let rel_x = (sx - ox) as i32;
        let rel_y = (sy - oy) as i32;
        let center_x = self.map_size.0 as i32 / 2;
        let center_y = self.map_size.1 as i32 / 2;
        let world_x = self.world_center.x + (rel_x - center_x);
        let world_y = self.world_center.y + (rel_y - center_y);
        Some(Position::new(world_x, world_y))
    }
}

/// Buttons of a pointer event.
#[derive(Debug, Clone, Copy, PartialEq, Eq, Structural)]
pub enum PointerButton {
    Left,
    Right,
    Middle,
}

/// Kinds of pointer event.
#[derive(Debug, Clone, Copy, PartialEq, Eq, Structural)]
pub enum PointerEvent {
    Down(PointerButton),
    Up(PointerButton),
    Moved,
    Drag(PointerButton),
    Scroll,
}

/// What a pointer event asks the game to announce.
#[derive(Debug, Clone, Copy)]
pub struct PointerOutcome {
    /// A click on this grid cell, with this button.
    pub click: Option<(Position, PointerButton)>,
    /// The pointer now hovers this grid cell; the previous one is given.
    pub hover: Option<(Position, Option<Position>)>,
}

impl MouseState {
    /// Take a pointer event at screen cell `(column, row)`, which shows
    /// grid cell `grid` (none off the map) holding `entity`: remember the
    /// cell, track the buttons, and tell which click or hover to announce.
    /// A hover is announced, and the hovered entity updated, only when the
    /// grid cell changes.
    pub fn apply(
        &mut self,
        event: PointerEvent,
        column: u16,
        row: u16,
        grid: Option<Position>,
        entity: Option<Entity>,
    ) -> (out: PointerOutcome)
        ensures
            final(self).screen_position == Some((column, row)),
            final(self).left_pressed == match event {
                PointerEvent::Down(PointerButton::Left) => true,
                PointerEvent::Up(PointerButton::Left) => false,
                _ => old(self).left_pressed,
            },
            final(self).right_pressed == match event {
                PointerEvent::Down(PointerButton::Right) => true,
                PointerEvent::Up(PointerButton::Right) => false,
                _ => old(self).right_pressed,
            },
            ((event is Moved || event is Drag) && grid != old(self).grid_position) ==> (
            final(self).grid_position == grid && final(self).hovered_entity == entity),
            !((event is Moved || event is Drag) && grid != old(self).grid_position) ==> (
            final(self).grid_position == old(self).grid_position && final(self).hovered_entity
                == old(self).hovered_entity),
            out.click == match (event, grid) {
                (PointerEvent::Down(b), Some(p)) => Some((p, b)),
                _ => None,
            },
            out.hover == match (event, grid) {
                (PointerEvent::Moved, Some(p)) => if Some(p) != old(self).grid_position {
                    Some((p, old(self).grid_position))
                } else {
                    None
                },
                _ => None,
            },
    {
        self.screen_position = Some((column, row));
        let previous = self.grid_position;
        let mut out = PointerOutcome { click: None, hover: None };
        match event {
            PointerEvent::Down(button) => {
                match button {
                    PointerButton::Left => self.left_pressed = true,
                    PointerButton::Right => self.right_pressed = true,
                    PointerButton::Middle => {},
                }
                if let Some(p) = grid {
                    out.click = Some((p, button));
                }
            },
            PointerEvent::Up(button) => {
                match button {
                    PointerButton::Left => self.left_pressed = false,
                    PointerButton::Right => self.right_pressed = false,
                    PointerButton::Middle => {},
                }
            },
            PointerEvent::Moved => {
                if !same_cell(grid, self.grid_position) {
                    self.grid_position = grid;
                    self.hovered_entity = entity;
                    if let Some(p) = grid {
                        out.hover = Some((p, previous));
                    }
                }
            },
            PointerEvent::Drag(_) => {
                if !same_cell(grid, self.grid_position) {
                    self.grid_position = grid;
                    self.hovered_entity = entity;
                }
            },
            PointerEvent::Scroll => {},
        }
        out
    }
}

/// Whether two optional grid cells are the same.
fn same_cell(a: Option<Position>, b: Option<Position>) -> (r: bool)
    ensures
        r == (a == b),
{
    match (a, b) {
        (Some(p), Some(q)) => p.x == q.x && p.y == q.y,
        (None, None) => true,
        _ => false,
    }
}

} // verus!
