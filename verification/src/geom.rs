use vstd::prelude::*;

verus! {

/// A point in pixels, in world space or screen space depending on context.
#[derive(Clone, Copy, Debug, PartialEq, Eq, Structural)]
pub struct Position {
    pub x: i32,
    pub y: i32,
}

impl Position {
    pub fn new(x: i32, y: i32) -> (p: Position)
        ensures
            p.x == x,
            p.y == y,
    {
        Position { x, y }
    }
}

/// A viewport extent, in pixels.
#[derive(Clone, Copy, Debug, PartialEq, Eq, Structural)]
pub struct Size {
    pub width: u32,
    pub height: u32,
}

/// Screen space puts its origin at the top-left corner of the viewport with y
/// growing downward; world space puts its origin at the camera focus point,
/// which is assumed centred on the viewport. The four functions below define
/// the transform between the two, coordinate by coordinate. Halving the
/// viewport truncates, so an odd extent carries a consistent half-pixel bias.
pub open spec fn screen_to_world_x(camera_x: int, viewport_width: int, screen_x: int) -> int {
    camera_x - viewport_width / 2 + screen_x
}

pub open spec fn screen_to_world_y(camera_y: int, viewport_height: int, screen_y: int) -> int {
    camera_y + viewport_height / 2 + screen_y
}

pub open spec fn world_to_screen_x(camera_x: int, viewport_width: int, world_x: int) -> int {
    world_x - camera_x + viewport_width / 2
}

pub open spec fn world_to_screen_y(camera_y: int, viewport_height: int, world_y: int) -> int {
    world_y - camera_y - viewport_height / 2
}

/// Law: for any camera position, viewport size and screen point, taking the
/// point to world space and back to screen space returns the original point.
/// The half-viewport term enters each direction once, with opposite signs, so
/// it cancels exactly even where the halving truncated.
pub proof fn lemma_screen_round_trip(
    camera_x: int,
    camera_y: int,
    viewport_width: int,
    viewport_height: int,
    screen_x: int,
    screen_y: int,
)
    ensures
        world_to_screen_x(
            camera_x,
            viewport_width,
            screen_to_world_x(camera_x, viewport_width, screen_x),
        ) == screen_x,
        world_to_screen_y(
            camera_y,
            viewport_height,
            screen_to_world_y(camera_y, viewport_height, screen_y),
        ) == screen_y,
{
}

/// Law: for any camera position, viewport size and world point, taking the
/// point to screen space and back to world space returns the original point.
pub proof fn lemma_world_round_trip(
    camera_x: int,
    camera_y: int,
    viewport_width: int,
    viewport_height: int,
    world_x: int,
    world_y: int,
)
    ensures
        screen_to_world_x(
            camera_x,
            viewport_width,
            world_to_screen_x(camera_x, viewport_width, world_x),
        ) == world_x,
        screen_to_world_y(
            camera_y,
            viewport_height,
            world_to_screen_y(camera_y, viewport_height, world_y),
        ) == world_y,
{
}

} // verus!
