//! The per-frame update step, stated stage by stage over `PlayerView`.
use vstd::prelude::*;

use crate::entity::{
    floor_y, left_edge, rect_in_sync, right_edge, Player, PlayerView, HEIGHT, PLAYER_HEIGHT, PLAYER_WIDTH,
    WIDTH,
};
use crate::fixed::{
    clamp_i32, clamp_i64, round_to_units, saturate, saturate_i32, to_units, wide_mul, SUBUNITS,
};

verus! {

/// The keys held during a frame that move the player.
#[derive(Clone, Copy, Debug, PartialEq, Eq)]
pub struct HeldKeys {
    pub left: bool,
    pub right: bool,
    pub up: bool,
}

impl HeldKeys {
    /// No key held.
    pub fn none() -> (k: HeldKeys)
        ensures
            !k.left && !k.right && !k.up,
    {
        HeldKeys { left: false, right: false, up: false }
    }
}

/// Moving left: horizontal velocity becomes `-movement_speed * dt`, the same
/// displacement is applied at once, and the sprite faces left.
pub open spec fn moved_left(s: PlayerView, dt: int) -> PlayerView {
    let d = clamp_i64(-(s.movement_speed * dt));
    PlayerView { vx: d, x: clamp_i64(s.x + d), flip_horizontal: false, ..s }
}

/// Moving right: the mirror image of `moved_left`, with the sprite flipped.
pub open spec fn moved_right(s: PlayerView, dt: int) -> PlayerView {
    let d = clamp_i64(s.movement_speed * dt);
    PlayerView { vx: d, x: clamp_i64(s.x + d), flip_horizontal: true, ..s }
}

/// Jumping: from the ground only, vertical velocity becomes
/// `-jump_speed * dt`.
pub open spec fn jumped(s: PlayerView, dt: int) -> PlayerView {
    if s.ground {
        PlayerView { vy: clamp_i64(-(s.jump_speed * dt)), ..s }
    } else {
        s
    }
}

/// Input resolution: left, then right, then up, each where held.
pub open spec fn after_input(s: PlayerView, dt: int, keys: HeldKeys) -> PlayerView {
    let s1 = if keys.left { moved_left(s, dt) } else { s };
    let s2 = if keys.right { moved_right(s1, dt) } else { s1 };
    if keys.up { jumped(s2, dt) } else { s2 }
}

/// Gravity: a vertical velocity at most the maximum fall speed gains
/// `gravity * dt`; a larger one is cut back to the maximum.
pub open spec fn after_gravity(s: PlayerView, dt: int) -> PlayerView {
    if s.vy <= s.max_fall_speed {
        PlayerView { vy: clamp_i64(s.vy + s.gravity * dt), ..s }
    } else {
        PlayerView { vy: s.max_fall_speed, ..s }
    }
}

/// Horizontal velocity is scaled by `dt` once more.
pub open spec fn after_rescale(s: PlayerView, dt: int) -> PlayerView {
    PlayerView { vx: clamp_i64(s.vx * dt), ..s }
}

/// The position moves by the velocity times `dt`.
pub open spec fn after_motion(s: PlayerView, dt: int) -> PlayerView {
    PlayerView { x: clamp_i64(s.x + s.vx * dt), y: clamp_i64(s.y + s.vy * dt), ..s }
}

/// At or below the floor the player is put on it, stops falling and touches
/// the ground; above it, it does not.
pub open spec fn after_floor(s: PlayerView) -> PlayerView {
    if s.y >= floor_y() {
        PlayerView { y: floor_y(), vy: 0, ground: true, ..s }
    } else {
        PlayerView { ground: false, ..s }
    }
}

/// Leaving on the right re-enters just left of the screen, and the other way
/// round.
pub open spec fn after_wrap(s: PlayerView) -> PlayerView {
    if s.x >= right_edge() {
        PlayerView { x: left_edge(), ..s }
    } else if s.x <= left_edge() {
        PlayerView { x: right_edge(), ..s }
    } else {
        s
    }
}

/// The rectangle's origin follows the rounded position.
pub open spec fn after_sync(s: PlayerView) -> PlayerView {
    PlayerView {
        rect_x: clamp_i32(round_to_units(s.x)),
        rect_y: clamp_i32(round_to_units(s.y)),
        ..s
    }
}

/// One frame of `dt` milliseconds with `keys` held.
pub open spec fn step(s: PlayerView, dt: int, keys: HeldKeys) -> PlayerView {
    after_sync(
        after_wrap(
            after_floor(after_motion(after_rescale(after_gravity(after_input(s, dt, keys), dt), dt), dt)),
        ),
    )
}

/// Milliseconds between two readings of the clock, held to the range of `i32`.
pub fn elapsed_time(previous_ticks: u32, current_ticks: u32) -> (r: i32)
    ensures
        r == clamp_i32(current_ticks - previous_ticks),
{
    saturate_i32(current_ticks as i64 - previous_ticks as i64)
}

impl Player {
    /// Starts a jump where the player touches the ground.
    pub fn jump(&mut self, delta_time: i32)
        ensures
            final(self)@ == jumped(old(self)@, delta_time as int),
    {
        if self.entity.is_touching_ground {
            let v = wide_mul(self.jump_speed, delta_time as i64);
            self.entity.velocity.y = saturate(-v);
        }
    }

    /// Moves left for a frame of `delta_time` milliseconds.
    pub fn move_left(&mut self, delta_time: i32)
        ensures
            final(self)@ == moved_left(old(self)@, delta_time as int),
    {
        let d = saturate(-wide_mul(self.movement_speed, delta_time as i64));
        self.entity.velocity.x = d;
        let p = self.entity.textured_game_object.game_object.position.x;
        self.entity.textured_game_object.game_object.position.x = saturate(p as i128 + d as i128);
        self.entity.textured_game_object.flip_horizontal = false;
    }

    /// Moves right for a frame of `delta_time` milliseconds.
    pub fn move_right(&mut self, delta_time: i32)
        ensures
            final(self)@ == moved_right(old(self)@, delta_time as int),
    {
        let d = saturate(wide_mul(self.movement_speed, delta_time as i64));
        self.entity.velocity.x = d;
        let p = self.entity.textured_game_object.game_object.position.x;
        self.entity.textured_game_object.game_object.position.x = saturate(p as i128 + d as i128);
        self.entity.textured_game_object.flip_horizontal = true;
    }

    /// Advances the player by one frame of `delta_time` milliseconds with
    /// `keys` held.
    pub fn update(&mut self, delta_time: i32, keys: HeldKeys)
        ensures
            final(self)@ == step(old(self)@, delta_time as int, keys),
            rect_in_sync(final(self)@),
    {
        let dt = delta_time as i64;
        if keys.left {
            self.move_left(delta_time);
        }
        if keys.right {
            self.move_right(delta_time);
        }
        if keys.up {
            self.jump(delta_time);
        }
        if self.entity.velocity.y <= self.entity.max_fall_speed {
            let g = wide_mul(self.entity.gravity, dt);
            self.entity.velocity.y = saturate(self.entity.velocity.y as i128 + g);
        } else {
            self.entity.velocity.y = self.entity.max_fall_speed;
        }
        self.entity.velocity.x = saturate(wide_mul(self.entity.velocity.x, dt));

        let vx = self.entity.velocity.x;
        let vy = self.entity.velocity.y;
        let x = self.entity.textured_game_object.game_object.position.x;
        let y = self.entity.textured_game_object.game_object.position.y;
        self.entity.textured_game_object.game_object.position.x = saturate(x as i128 + wide_mul(vx, dt));
        self.entity.textured_game_object.game_object.position.y = saturate(y as i128 + wide_mul(vy, dt));

        let floor: i64 = (HEIGHT - PLAYER_HEIGHT) as i64 * SUBUNITS;
        if self.entity.textured_game_object.game_object.position.y >= floor {
            self.entity.textured_game_object.game_object.position.y = floor;
            self.entity.velocity.y = 0;
            self.entity.is_touching_ground = true;
        } else {
            self.entity.is_touching_ground = false;
        }

        let right: i64 = WIDTH as i64 * SUBUNITS;
        let left: i64 = -(PLAYER_WIDTH as i64 * SUBUNITS);
        if self.entity.textured_game_object.game_object.position.x >= right {
            self.entity.textured_game_object.game_object.position.x = left;
        } else if self.entity.textured_game_object.game_object.position.x <= left {
            self.entity.textured_game_object.game_object.position.x = right;
        }

        let position = self.entity.textured_game_object.game_object.position;
        self.entity.textured_game_object.game_object.rect.x = to_units(position.x);
        self.entity.textured_game_object.game_object.rect.y = to_units(position.y);
    }
}

} // verus!
