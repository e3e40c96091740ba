//! What holds of the update step over every state and every run of frames.
use vstd::prelude::*;

use crate::entity::{fits_machine, floor_y, left_edge, right_edge, PlayerView};
use crate::fixed::{clamp_i64, SUBUNITS};
use crate::physics::{after_input, step, HeldKeys};

verus! {

/// No key held.
pub open spec fn no_keys() -> HeldKeys {
    HeldKeys { left: false, right: false, up: false }
}

/// The state after `n` frames of `dt` milliseconds each with `keys` held.
pub open spec fn iterate(s: PlayerView, dt: int, keys: HeldKeys, n: nat) -> PlayerView
    decreases n,
{
    if n == 0 {
        s
    } else {
        iterate(step(s, dt, keys), dt, keys, (n - 1) as nat)
    }
}

/// Lying on the floor, touching the ground, with no vertical speed.
pub open spec fn resting(s: PlayerView) -> bool {
    &&& s.ground
    &&& s.y == floor_y()
    &&& s.vy == 0
}

proof fn lemma_product_at_least(a: int, b: int)
    requires
        a >= 1,
        b >= 1,
    ensures
        a * b >= a,
{
    assert(a * b >= a) by (nonlinear_arith)
        requires
            a >= 1,
            b >= 1,
    ;
}

proof fn lemma_product_non_negative(a: int, b: int)
    requires
        a >= 0,
        b >= 0,
    ensures
        a * b >= 0,
{
    assert(a * b >= 0) by (nonlinear_arith)
        requires
            a >= 0,
            b >= 0,
    ;
}

proof fn lemma_iterate_split(s: PlayerView, dt: int, keys: HeldKeys, a: nat, b: nat)
    ensures
        iterate(s, dt, keys, a + b) == iterate(iterate(s, dt, keys, a), dt, keys, b),
    decreases a,
{
    if a > 0 {
        lemma_iterate_split(step(s, dt, keys), dt, keys, (a - 1) as nat, b);
        assert((a + b - 1) as nat == (a - 1) as nat + b);
    }
}

proof fn lemma_rest_step(s: PlayerView, dt: int)
    requires
        resting(s),
        dt >= 0,
        s.gravity >= 0,
        s.max_fall_speed >= 0,
    ensures
        resting(step(s, dt, no_keys())),
        step(s, dt, no_keys()).gravity == s.gravity,
        step(s, dt, no_keys()).max_fall_speed == s.max_fall_speed,
{
    lemma_product_non_negative(s.gravity, dt);
    let vy = clamp_i64(s.gravity * dt);
    lemma_product_non_negative(vy, dt);
}

/// A player resting on the floor stays at rest, frame after frame, while no
/// key is held and time does not run backwards.
pub proof fn lemma_rest_is_kept(s: PlayerView, dt: int, n: nat)
    requires
        resting(s),
        dt >= 0,
        s.gravity >= 0,
        s.max_fall_speed >= 0,
    ensures
        resting(iterate(s, dt, no_keys(), n)),
    decreases n,
{
    if n > 0 {
        lemma_rest_step(s, dt);
        lemma_rest_is_kept(step(s, dt, no_keys()), dt, (n - 1) as nat);
    }
}

proof fn lemma_reaches_rest(s: PlayerView, dt: int) -> (n: nat)
    requires
        dt > 0,
        s.gravity > 0,
        s.max_fall_speed >= 0,
    ensures
        resting(iterate(s, dt, no_keys(), n)),
    decreases
            (if s.vy < 0 { 1int } else { 0int }),
            (if s.vy < 0 { -s.vy } else { 0int }),
            (if s.y < floor_y() { floor_y() - s.y } else { 0int }),
            (if s.vy > 0 { 1int } else { 0int }),
{
    let t = step(s, dt, no_keys());
    assert(after_input(s, dt, no_keys()) == s);
    lemma_product_at_least(s.gravity, dt);
    if t.vy > 0 {
        lemma_product_at_least(t.vy, dt);
    } else if t.vy == 0 {
        lemma_product_non_negative(t.vy, dt);
    }
    assert(iterate(t, dt, no_keys(), 0) == t);
    assert(iterate(s, dt, no_keys(), 1) == t);
    if t.ground {
        1
    } else {
        let n = lemma_reaches_rest(t, dt);
        assert(iterate(s, dt, no_keys(), n + 1) == iterate(t, dt, no_keys(), n));
        n + 1
    }
}

/// With gravity pulling down and time running forward, a player left alone
/// comes to rest on the floor after some number of frames, and stays at rest
/// on every frame after that.
pub proof fn lemma_falls_to_rest(s: PlayerView, dt: int) -> (n: nat)
    requires
        dt > 0,
        s.gravity > 0,
        s.max_fall_speed >= 0,
    ensures
        forall|m: nat| m >= n ==> resting(#[trigger] iterate(s, dt, no_keys(), m)),
{
    let n = lemma_reaches_rest(s, dt);
    assert forall|m: nat| m >= n implies resting(#[trigger] iterate(s, dt, no_keys(), m)) by {
        lemma_iterate_split(s, dt, no_keys(), n, (m - n) as nat);
        lemma_iterate_keeps_constants(s, dt, no_keys(), n);
        lemma_rest_is_kept(iterate(s, dt, no_keys(), n), dt, (m - n) as nat);
    }
    n
}

proof fn lemma_iterate_keeps_constants(s: PlayerView, dt: int, keys: HeldKeys, n: nat)
    ensures
        iterate(s, dt, keys, n).gravity == s.gravity,
        iterate(s, dt, keys, n).max_fall_speed == s.max_fall_speed,
    decreases n,
{
    if n > 0 {
        lemma_iterate_keeps_constants(step(s, dt, keys), dt, keys, (n - 1) as nat);
    }
}

/// A frame of no time leaves position and velocity as they were, whatever
/// keys are held, for a player with no horizontal speed, not falling faster
/// than its maximum, inside the screen and not below the floor (on it only at
/// rest), and not about to jump with vertical speed; whether it touches the
/// ground is still decided from the unchanged position.
pub proof fn lemma_zero_time_keeps_motion(s: PlayerView, keys: HeldKeys)
    requires
        fits_machine(s),
        s.vx == 0,
        s.vy <= s.max_fall_speed,
        keys.up && s.ground ==> s.vy == 0,
        s.y < floor_y() || (s.y == floor_y() && s.vy == 0),
        left_edge() < s.x < right_edge(),
    ensures
        step(s, 0, keys).x == s.x,
        step(s, 0, keys).y == s.y,
        step(s, 0, keys).vx == s.vx,
        step(s, 0, keys).vy == s.vy,
        step(s, 0, keys).ground == (s.y >= floor_y()),
{
}

/// With left and right held together, right is the one that counts: the
/// horizontal velocity and the sprite's facing are those of right alone.
pub proof fn lemma_right_wins(s: PlayerView, dt: int, keys: HeldKeys)
    requires
        keys.left,
        keys.right,
    ensures
        after_input(s, dt, keys).vx == clamp_i64(s.movement_speed * dt),
        after_input(s, dt, keys).flip_horizontal,
        step(s, dt, keys).vx == step(s, dt, (HeldKeys { left: false, ..keys })).vx,
        step(s, dt, keys).vx == clamp_i64(clamp_i64(s.movement_speed * dt) * dt),
        step(s, dt, keys).flip_horizontal,
{
}

/// Up gives a jump impulse only to a player that touches the ground when the
/// frame starts: in the air, holding up changes nothing at all, and gravity
/// applies as usual.
pub proof fn lemma_jump_needs_ground(s: PlayerView, dt: int, keys: HeldKeys)
    ensures
        !s.ground ==> step(s, dt, keys) == step(s, dt, (HeldKeys { up: false, ..keys })),
        !s.ground ==> after_input(s, dt, keys).vy == s.vy,
        s.ground && keys.up ==> after_input(s, dt, keys).vy == clamp_i64(-(s.jump_speed * dt)),
{
}

/// A player one unit short of the right edge whose horizontal motion this
/// frame carries it at least one unit further re-enters exactly one sprite
/// width left of the screen.
pub proof fn lemma_wraps_at_right_edge(s: PlayerView, dt: int, keys: HeldKeys)
    requires
        s.x == right_edge() - SUBUNITS,
        !keys.left,
        !keys.right,
        s.vx * dt * dt >= SUBUNITS,
    ensures
        step(s, dt, keys).x == left_edge(),
{
    let p = s.vx * dt;
    let r = clamp_i64(p);
    if p > i64::MAX {
        assert(dt >= 1) by (nonlinear_arith)
            requires
                p > 0,
                p * dt >= 1000,
        ;
        lemma_product_at_least(r, dt);
    } else if p < i64::MIN {
        assert(r * dt >= -r) by (nonlinear_arith)
            requires
                p < 0,
                p * dt >= 1000,
                r < 0,
        ;
    }
    assert(r * dt >= SUBUNITS);
}

} // verus!
