//! Movement resolution: a requested displacement is swept against the
//! collision world, clamped to the first time of impact, and the unconsumed
//! remainder is projected onto the contact plane, for up to five iterations.
//! The whole computation is a function of the world value, the starting
//! position and the input alone — replaying the same inputs from the same
//! position yields the same positions, which reconciliation depends on.

use vstd::prelude::*;

use crate::message::OrderedInput;
use crate::message::PlayerInput;
use crate::physics::Physics;
use crate::physics::cast_bits;
use crate::vec2::Vec2Bits;
use crate::vec2::add_bits;
use crate::vec2::div_bits;
use crate::vec2::dot_bits;
use crate::vec2::f32_div;
use crate::vec2::f32_gt;
use crate::vec2::gt_bits;
use crate::vec2::norm_bits;
use crate::vec2::norm_sq_bits;
use crate::vec2::scale_bits;
use crate::vec2::spec_zero_vec;
use crate::vec2::sub_bits;
use crate::vec2::unit_bits;
use crate::vec2::vec2_add;
use crate::vec2::vec2_dot;
use crate::vec2::vec2_norm;
use crate::vec2::vec2_norm_squared;
use crate::vec2::vec2_normalize;
use crate::vec2::vec2_scale;
use crate::vec2::vec2_sub;

verus! {

/// Bit pattern of the movement speed in units per second (500.0).
pub const SPEED_BITS: u32 = 0x43FA0000;

/// Bit pattern of the squared-length threshold (1.0e-6) below which a
/// residual displacement is dropped.
pub const MOVE_EPS_SQ_BITS: u32 = 0x358637BD;

/// Bit pattern of the cast target distance (2.0): the sweep reports impact
/// this early, keeping a skin between shapes.
pub const CAST_OFFSET_BITS: u32 = 0x40000000;

/// Bit pattern of the maximum time of impact (1.0): the sweep covers exactly
/// the requested displacement.
pub const MAX_TOI_BITS: u32 = 0x3F800000;

/// Number of clamp-and-slide iterations per resolved movement.
pub const MOVE_ITERATIONS: u64 = 5;

/// The component of `dir` lying in the plane orthogonal to `plane_normal`.
pub open spec fn project_on_plane_bits(dir: (u32, u32), plane_normal: (u32, u32)) -> (u32, u32) {
    sub_bits(
        dir,
        scale_bits(plane_normal, div_bits(dot_bits(dir, plane_normal), norm_sq_bits(plane_normal))),
    )
}

pub fn project_on_plane(dir: Vec2Bits, plane_normal: Vec2Bits) -> (r: Vec2Bits)
    ensures
        r.bits() == project_on_plane_bits(dir.bits(), plane_normal.bits()),
{
    let sqr_len = vec2_norm_squared(plane_normal);
    let dot = vec2_dot(dir, plane_normal);
    vec2_sub(dir, vec2_scale(plane_normal, f32_div(dot, sqr_len)))
}

/// One state of the clamp-and-slide recursion: with `remaining` displacement
/// still to consume and `effective` already granted, what displacement the
/// resolver finally grants.
pub open spec fn move_character_rec(
    w: rapier2d::pipeline::PhysicsWorld,
    movement: (u32, u32),
    shape: (u32, u32),
    start: (u32, u32),
    exclude: (u32, u32),
    remaining: (u32, u32),
    effective: (u32, u32),
    iters: nat,
) -> (u32, u32)
    decreases iters,
{
    if !gt_bits(norm_sq_bits(remaining), MOVE_EPS_SQ_BITS) || iters == 0 {
        effective
    } else {
        match cast_bits(
            w,
            add_bits(start, effective),
            remaining,
            shape,
            CAST_OFFSET_BITS,
            MAX_TOI_BITS,
            false,
            true,
            exclude,
        ) {
            Some(hit) => {
                let allowed = scale_bits(movement, hit.0);
                let effective2 = add_bits(effective, allowed);
                let remaining1 = sub_bits(remaining, allowed);
                let projection = project_on_plane_bits(remaining1, hit.1);
                let remaining2 = if gt_bits(norm_sq_bits(projection), MOVE_EPS_SQ_BITS) {
                    scale_bits(unit_bits(projection), norm_bits(remaining1))
                } else {
                    spec_zero_vec().bits()
                };
                move_character_rec(
                    w,
                    movement,
                    shape,
                    start,
                    exclude,
                    remaining2,
                    effective2,
                    (iters - 1) as nat,
                )
            },
            None => add_bits(effective, remaining),
        }
    }
}

/// The displacement the resolver grants for a requested `movement` of the
/// collider `shape` starting at `start`, ignoring the body `exclude`.
pub open spec fn move_character_bits(
    w: rapier2d::pipeline::PhysicsWorld,
    movement: (u32, u32),
    shape: (u32, u32),
    start: (u32, u32),
    exclude: (u32, u32),
) -> (u32, u32) {
    move_character_rec(
        w,
        movement,
        shape,
        start,
        exclude,
        movement,
        spec_zero_vec().bits(),
        MOVE_ITERATIONS as nat,
    )
}

fn move_character_go(
    physics: &Physics,
    movement: Vec2Bits,
    shape: (u32, u32),
    start: Vec2Bits,
    exclude: (u32, u32),
    remaining: Vec2Bits,
    effective: Vec2Bits,
    iters: u64,
) -> (r: Vec2Bits)
    ensures
        r.bits() == move_character_rec(
            physics.world,
            movement.bits(),
            shape,
            start.bits(),
            exclude,
            remaining.bits(),
            effective.bits(),
            iters as nat,
        ),
    decreases iters,
{
    let still_moving = f32_gt(vec2_norm_squared(remaining), MOVE_EPS_SQ_BITS);
    if !still_moving || iters == 0 {
        return effective;
    }
    match physics.cast_shape(
        vec2_add(start, effective),
        remaining,
        shape,
        CAST_OFFSET_BITS,
        MAX_TOI_BITS,
        false,
        true,
        exclude,
    ) {
        Some((time_of_impact, normal)) => {
            // The hit clamps travel to the first interference; the remainder
            // slides along the contact plane, dropped when near zero.
            let allowed = vec2_scale(movement, time_of_impact);
            let effective2 = vec2_add(effective, allowed);
            let remaining1 = vec2_sub(remaining, allowed);
            let projection = project_on_plane(remaining1, normal);
            let remaining2 = if f32_gt(vec2_norm_squared(projection), MOVE_EPS_SQ_BITS) {
                vec2_scale(vec2_normalize(projection), vec2_norm(remaining1))
            } else {
                Vec2Bits::zero()
            };
            move_character_go(
                physics,
                movement,
                shape,
                start,
                exclude,
                remaining2,
                effective2,
                iters - 1,
            )
        },
        None => vec2_add(effective, remaining),
    }
}

/// Resolves a requested `movement` of the collider `shape` starting at
/// `shape_translation` into the maximal interference-free displacement,
/// ignoring hits on the body `exclude`.
pub fn move_character(
    physics: &Physics,
    movement: Vec2Bits,
    shape: (u32, u32),
    shape_translation: Vec2Bits,
    exclude: (u32, u32),
) -> (r: Vec2Bits)
    ensures
        r.bits() == move_character_bits(
            physics.world,
            movement.bits(),
            shape,
            shape_translation.bits(),
            exclude,
        ),
{
    move_character_go(
        physics,
        movement,
        shape,
        shape_translation,
        exclude,
        movement,
        Vec2Bits::zero(),
        MOVE_ITERATIONS,
    )
}

/// The displacement requested for one step from a raw input direction: the
/// normalized direction scaled by the speed, then by the step length; a zero
/// direction requests no movement.
pub open spec fn movement_bits(dir: (u32, u32), dt_bits: u32) -> (u32, u32) {
    if dir == spec_zero_vec().bits() {
        spec_zero_vec().bits()
    } else {
        scale_bits(scale_bits(unit_bits(dir), SPEED_BITS), dt_bits)
    }
}

/// The position an actor at `pos` reaches after one input is resolved
/// against the world.
pub open spec fn apply_input_bits(
    w: rapier2d::pipeline::PhysicsWorld,
    pos: (u32, u32),
    dir: (u32, u32),
    shape: (u32, u32),
    exclude: (u32, u32),
    dt_bits: u32,
) -> (u32, u32) {
    add_bits(pos, move_character_bits(w, movement_bits(dir, dt_bits), shape, pos, exclude))
}

/// Applies one movement intent to `position`: the requested displacement is
/// direction × speed × dt, resolved against the collision world with the
/// actor's own body excluded.
pub fn apply_input(
    physics: &Physics,
    position: &mut Vec2Bits,
    input: &PlayerInput,
    shape: (u32, u32),
    curr_player: (u32, u32),
    dt_bits: u32,
)
    ensures
        final(position).bits() == apply_input_bits(
            physics.world,
            old(position).bits(),
            input.move_direction.bits(),
            shape,
            curr_player,
            dt_bits,
        ),
{
    let zero = Vec2Bits::zero();
    let movement = if input.move_direction == zero {
        zero
    } else {
        vec2_scale(vec2_scale(vec2_normalize(input.move_direction), SPEED_BITS), dt_bits)
    };
    let out = move_character(physics, movement, shape, *position, curr_player);
    *position = vec2_add(*position, out);
}

/// The positions reached after each input of `inputs` is applied in turn,
/// starting from `start`.
pub open spec fn replay_bits(
    w: rapier2d::pipeline::PhysicsWorld,
    start: (u32, u32),
    inputs: Seq<OrderedInput>,
    shape: (u32, u32),
    exclude: (u32, u32),
    dt_bits: u32,
) -> Seq<(u32, u32)>
    decreases inputs.len(),
{
    if inputs.len() == 0 {
        Seq::empty()
    } else {
        let first = apply_input_bits(
            w,
            start,
            inputs[0].input.move_direction.bits(),
            shape,
            exclude,
            dt_bits,
        );
        seq![first] + replay_bits(w, first, inputs.skip(1), shape, exclude, dt_bits)
    }
}

/// Replaying an identical ordered input sequence from an identical starting
/// position through an identical collision world yields identical positions,
/// step for step: the resolver result is a function of world, position and
/// input alone, so reconciliation's replay is deterministic.
pub proof fn lemma_replay_deterministic(
    w1: rapier2d::pipeline::PhysicsWorld,
    w2: rapier2d::pipeline::PhysicsWorld,
    start: (u32, u32),
    inputs: Seq<OrderedInput>,
    shape: (u32, u32),
    exclude: (u32, u32),
    dt_bits: u32,
)
    requires
        w1 == w2,
    ensures
        replay_bits(w1, start, inputs, shape, exclude, dt_bits) == replay_bits(
            w2,
            start,
            inputs,
            shape,
            exclude,
            dt_bits,
        ),
{
}


/// A replay yields exactly one position per input.
pub proof fn lemma_replay_len(
    w: rapier2d::pipeline::PhysicsWorld,
    start: (u32, u32),
    inputs: Seq<OrderedInput>,
    shape: (u32, u32),
    exclude: (u32, u32),
    dt_bits: u32,
)
    ensures
        replay_bits(w, start, inputs, shape, exclude, dt_bits).len() == inputs.len(),
    decreases inputs.len(),
{
    if inputs.len() != 0 {
        let first = apply_input_bits(
            w,
            start,
            inputs[0].input.move_direction.bits(),
            shape,
            exclude,
            dt_bits,
        );
        lemma_replay_len(w, first, inputs.skip(1), shape, exclude, dt_bits);
    }
}

/// Extending a replay by one input appends exactly one position: the one
/// reached by applying that input at the end of the shorter replay.
pub proof fn lemma_replay_take_step(
    w: rapier2d::pipeline::PhysicsWorld,
    start: (u32, u32),
    inputs: Seq<OrderedInput>,
    shape: (u32, u32),
    exclude: (u32, u32),
    dt_bits: u32,
    i: int,
)
    requires
        0 <= i < inputs.len(),
    ensures
        ({
            let shorter = replay_bits(w, start, inputs.take(i), shape, exclude, dt_bits);
            let longer = replay_bits(w, start, inputs.take(i + 1), shape, exclude, dt_bits);
            let prev = if i == 0 {
                start
            } else {
                shorter[i - 1]
            };
            longer == shorter.push(
                apply_input_bits(
                    w,
                    prev,
                    inputs[i].input.move_direction.bits(),
                    shape,
                    exclude,
                    dt_bits,
                ),
            )
        }),
    decreases i,
{
    let shorter = replay_bits(w, start, inputs.take(i), shape, exclude, dt_bits);
    let longer = replay_bits(w, start, inputs.take(i + 1), shape, exclude, dt_bits);
    if i == 0 {
        assert(inputs.take(0) =~= Seq::<OrderedInput>::empty());
        assert(inputs.take(1) =~= seq![inputs[0]]);
        let first = apply_input_bits(
            w,
            start,
            inputs[0].input.move_direction.bits(),
            shape,
            exclude,
            dt_bits,
        );
        assert(inputs.take(1).skip(1) =~= Seq::<OrderedInput>::empty());
        assert(inputs.take(1)[0] == inputs[0]);
        assert(replay_bits(w, first, Seq::<OrderedInput>::empty(), shape, exclude, dt_bits)
            == Seq::<(u32, u32)>::empty());
        assert(longer == seq![first] + Seq::<(u32, u32)>::empty());
        assert(shorter == Seq::<(u32, u32)>::empty());
        assert(longer =~= seq![first]);
        assert(shorter.push(first) =~= seq![first]);
    } else {
        let rest = inputs.skip(1);
        let first = apply_input_bits(
            w,
            start,
            inputs[0].input.move_direction.bits(),
            shape,
            exclude,
            dt_bits,
        );
        assert(inputs.take(i)[0] == inputs[0]);
        assert(inputs.take(i + 1)[0] == inputs[0]);
        assert(inputs.take(i).skip(1) =~= rest.take(i - 1));
        assert(inputs.take(i + 1).skip(1) =~= rest.take(i));
        let sub_shorter = replay_bits(w, first, rest.take(i - 1), shape, exclude, dt_bits);
        let sub_longer = replay_bits(w, first, rest.take(i), shape, exclude, dt_bits);
        assert(shorter == seq![first] + sub_shorter);
        assert(longer == seq![first] + sub_longer);
        lemma_replay_len(w, first, rest.take(i - 1), shape, exclude, dt_bits);
        lemma_replay_take_step(w, first, rest, shape, exclude, dt_bits, i - 1);
        let stepped = apply_input_bits(
            w,
            (if i == 1 {
                first
            } else {
                sub_shorter[i - 2]
            }),
            rest[i - 1].input.move_direction.bits(),
            shape,
            exclude,
            dt_bits,
        );
        assert(sub_longer == sub_shorter.push(stepped));
        assert(rest[i - 1] == inputs[i]);
        assert(shorter[i - 1] == (if i == 1 {
            first
        } else {
            sub_shorter[i - 2]
        }));
        assert(longer =~= shorter.push(stepped));
    }
}

} // verus!
