//! The player entity: position, velocity, physical constants and render
//! attributes, with a flat mathematical view of all of them.
use vstd::prelude::*;

use crate::fixed::{clamp_i32, round_to_units, to_units, SUBUNITS};

verus! {

/// Width of the window, in world units.
pub const WIDTH: u32 = 800;

/// Height of the window, in world units.
pub const HEIGHT: u32 = 600;

/// Width of the player sprite: its 28-unit source image drawn at twice its size.
pub const PLAYER_WIDTH: u32 = 28 * 2;

/// Height of the player sprite: its 58-unit source image drawn at twice its size.
pub const PLAYER_HEIGHT: u32 = 58 * 2;

/// A pair of fixed-point coordinates, in sub-units; used for both position
/// and velocity.
#[derive(Clone, Copy, Debug, PartialEq, Eq)]
pub struct Position {
    pub x: i64,
    pub y: i64,
}

/// The integer rectangle handed to the renderer, in whole units.
#[derive(Clone, Copy, Debug, PartialEq, Eq)]
pub struct Rect {
    pub x: i32,
    pub y: i32,
    pub width: u32,
    pub height: u32,
}

/// Something placed on screen: where it is, and the rectangle drawn for it.
#[derive(Clone, Copy, Debug, PartialEq, Eq)]
pub struct GameObject {
    pub position: Position,
    pub rect: Rect,
}

/// A game object drawn with a sprite, with how the sprite is flipped and
/// rotated (degrees).
#[derive(Clone, Copy, Debug, PartialEq, Eq)]
pub struct TexturedGameObject {
    pub game_object: GameObject,
    pub flip_horizontal: bool,
    pub flip_vertical: bool,
    pub angle: i32,
}

/// A textured object that moves and falls. Velocity is in sub-units per
/// millisecond, gravity in sub-units per millisecond squared.
#[derive(Clone, Copy, Debug, PartialEq, Eq)]
pub struct Entity {
    pub textured_game_object: TexturedGameObject,
    pub velocity: Position,
    pub gravity: i64,
    pub max_fall_speed: i64,
    pub is_touching_ground: bool,
}

/// The entity that the keyboard controls. Both speeds are in sub-units per
/// millisecond.
#[derive(Clone, Copy, Debug, PartialEq, Eq)]
pub struct Player {
    pub entity: Entity,
    pub movement_speed: i64,
    pub jump_speed: i64,
}

/// Everything a player holds, as mathematical integers.
pub struct PlayerView {
    pub x: int,
    pub y: int,
    pub vx: int,
    pub vy: int,
    pub ground: bool,
    pub flip_horizontal: bool,
    pub flip_vertical: bool,
    pub angle: int,
    pub rect_x: int,
    pub rect_y: int,
    pub rect_width: int,
    pub rect_height: int,
    pub gravity: int,
    pub max_fall_speed: int,
    pub movement_speed: int,
    pub jump_speed: int,
}

impl View for Player {
    type V = PlayerView;

    open spec fn view(&self) -> PlayerView {
        let t = self.entity.textured_game_object;
        let g = t.game_object;
        PlayerView {
            x: g.position.x as int,
            y: g.position.y as int,
            vx: self.entity.velocity.x as int,
            vy: self.entity.velocity.y as int,
            ground: self.entity.is_touching_ground,
            flip_horizontal: t.flip_horizontal,
            flip_vertical: t.flip_vertical,
            angle: t.angle as int,
            rect_x: g.rect.x as int,
            rect_y: g.rect.y as int,
            rect_width: g.rect.width as int,
            rect_height: g.rect.height as int,
            gravity: self.entity.gravity as int,
            max_fall_speed: self.entity.max_fall_speed as int,
            movement_speed: self.movement_speed as int,
            jump_speed: self.jump_speed as int,
        }
    }
}

/// The lowest height the player's top edge may reach: the floor, in sub-units.
pub open spec fn floor_y() -> int {
    (HEIGHT - PLAYER_HEIGHT) as int * SUBUNITS as int
}

/// Past this abscissa the player leaves the screen on the right, in sub-units.
pub open spec fn right_edge() -> int {
    WIDTH as int * SUBUNITS as int
}

/// At or before this abscissa the player has left the screen on the left, in
/// sub-units.
pub open spec fn left_edge() -> int {
    -(PLAYER_WIDTH as int * SUBUNITS as int)
}

/// Every quantity of `v` fits the machine integer that holds it, as in the
/// view of any `Player`.
pub open spec fn fits_machine(v: PlayerView) -> bool {
    &&& i64::MIN <= v.x <= i64::MAX
    &&& i64::MIN <= v.y <= i64::MAX
    &&& i64::MIN <= v.vx <= i64::MAX
    &&& i64::MIN <= v.vy <= i64::MAX
    &&& i64::MIN <= v.gravity <= i64::MAX
    &&& i64::MIN <= v.max_fall_speed <= i64::MAX
    &&& i64::MIN <= v.movement_speed <= i64::MAX
    &&& i64::MIN <= v.jump_speed <= i64::MAX
    &&& i32::MIN <= v.angle <= i32::MAX
    &&& i32::MIN <= v.rect_x <= i32::MAX
    &&& i32::MIN <= v.rect_y <= i32::MAX
    &&& 0 <= v.rect_width <= u32::MAX
    &&& 0 <= v.rect_height <= u32::MAX
}

/// The rectangle's origin is the position rounded to whole units.
pub open spec fn rect_in_sync(v: PlayerView) -> bool {
    &&& v.rect_x == clamp_i32(round_to_units(v.x))
    &&& v.rect_y == clamp_i32(round_to_units(v.y))
}

/// The player's sprite is the fixed size of the player.
pub open spec fn rect_has_player_size(v: PlayerView) -> bool {
    &&& v.rect_width == PLAYER_WIDTH as int
    &&& v.rect_height == PLAYER_HEIGHT as int
}

/// The view of a player fits the machine integers of its fields.
pub proof fn lemma_view_fits_machine(p: Player)
    ensures
        fits_machine(p@),
{
}

impl Player {
    /// A player at rest at `position`, not touching the ground, unflipped and
    /// unrotated, with the given constants; its rectangle is the player's size
    /// at the rounded position.
    pub fn new(
        position: Position,
        gravity: i64,
        max_fall_speed: i64,
        movement_speed: i64,
        jump_speed: i64,
    ) -> (p: Player)
        ensures
            p@.x == position.x,
            p@.y == position.y,
            p@.vx == 0,
            p@.vy == 0,
            !p@.ground,
            !p@.flip_horizontal,
            !p@.flip_vertical,
            p@.angle == 0,
            rect_in_sync(p@),
            rect_has_player_size(p@),
            p@.gravity == gravity,
            p@.max_fall_speed == max_fall_speed,
            p@.movement_speed == movement_speed,
            p@.jump_speed == jump_speed,
    {
        Player {
            entity: Entity {
                textured_game_object: TexturedGameObject {
                    game_object: GameObject {
                        position,
                        rect: Rect {
                            x: to_units(position.x),
                            y: to_units(position.y),
                            width: PLAYER_WIDTH,
                            height: PLAYER_HEIGHT,
                        },
                    },
                    flip_horizontal: false,
                    flip_vertical: false,
                    angle: 0,
                },
                velocity: Position { x: 0, y: 0 },
                gravity,
                max_fall_speed,
                is_touching_ground: false,
            },
            movement_speed,
            jump_speed,
        }
    }

    /// The game's player: centred horizontally at the top of the screen,
    /// falling at 0.001 units per ms squared up to 1 unit per ms, moving and
    /// jumping at 0.6 units per ms.
    pub fn spawn() -> (p: Player)
        ensures
            p@.x == (WIDTH / 2 - PLAYER_WIDTH / 2) as int * SUBUNITS as int,
            p@.y == 0,
            p@.vx == 0,
            p@.vy == 0,
            !p@.ground,
            !p@.flip_horizontal,
            !p@.flip_vertical,
            p@.angle == 0,
            rect_in_sync(p@),
            rect_has_player_size(p@),
            p@.gravity == 1,
            p@.max_fall_speed == 1000,
            p@.movement_speed == 600,
            p@.jump_speed == 600,
    {
        let x: i64 = (WIDTH / 2 - PLAYER_WIDTH / 2) as i64 * SUBUNITS;
        Player::new(Position { x, y: 0 }, 1, 1000, 600, 600)
    }

    /// Current position, in sub-units.
    pub fn position(&self) -> (r: Position)
        ensures
            r.x == self@.x,
            r.y == self@.y,
    {
        self.entity.textured_game_object.game_object.position
    }

    /// Current velocity, in sub-units per millisecond.
    pub fn velocity(&self) -> (r: Position)
        ensures
            r.x == self@.vx,
            r.y == self@.vy,
    {
        self.entity.velocity
    }

    /// Whether the player rested on the floor after the last update.
    pub fn is_touching_ground(&self) -> (r: bool)
        ensures
            r == self@.ground,
    {
        self.entity.is_touching_ground
    }

    /// The rectangle to draw the sprite into.
    pub fn rect(&self) -> (r: Rect)
        ensures
            r.x == self@.rect_x,
            r.y == self@.rect_y,
            r.width == self@.rect_width,
            r.height == self@.rect_height,
    {
        self.entity.textured_game_object.game_object.rect
    }
}

} // verus!
