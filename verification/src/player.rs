//! The player and its frame: movement first, then look.

use vstd::prelude::*;
use crate::facing::GroundFacing;
use crate::heading::{is_unit, resolve};
use crate::input::{HeldKeys, InputSnapshot, MouseDelta};
use crate::look::{looked, CameraSensitivity, Orientation};
use crate::movement::{displacement, movement_delta};
use crate::units::WORLD;
use crate::vector::{Direction, Vec3};

verus! {

/// Where an entity is, which way it is turned, and how large it is.
#[derive(Clone, Copy, Debug, PartialEq, Eq, Structural)]
pub struct Transform {
    pub translation: Vec3,
    pub rotation: Orientation,
    pub scale: Vec3,
}

impl Transform {
    /// At `(x, y, z)`, not turned, at scale one.
    pub fn from_xyz(x: i64, y: i64, z: i64) -> (t: Transform)
        ensures
            t.translation == (Vec3 { x, y, z }),
            t.rotation == (Orientation { yaw: 0, pitch: 0, roll: 0 }),
            t.scale == (Vec3 { x: WORLD, y: WORLD, z: WORLD }),
    {
        Transform {
            translation: Vec3::new(x, y, z),
            rotation: Orientation::identity(),
            scale: Vec3::one(),
        }
    }
}

/// The one player: its transform, its look sensitivity, and the heading it
/// last moved along.
#[derive(Clone, Copy, Debug, PartialEq, Eq)]
pub struct Player {
    pub transform: Transform,
    pub sensitivity: CameraSensitivity,
    /// The last heading that could be told from where the player looked. It
    /// stands in while the player looks straight up or down.
    pub facing: GroundFacing,
}

impl Player {
    /// The player as it enters the world: one world unit above the origin,
    /// not turned, with the default sensitivity.
    pub fn spawn() -> (p: Player)
        ensures
            p.transform.translation == (Vec3 { x: 0, y: WORLD, z: 0 }),
            p.transform.rotation == (Orientation { yaw: 0, pitch: 0, roll: 0 }),
            p.transform.scale == (Vec3 { x: WORLD, y: WORLD, z: WORLD }),
            p.sensitivity == (CameraSensitivity { x: 3_000, y: 2_000 }),
            p.facing@ == GroundFacing::ahead(),
    {
        Player {
            transform: Transform::from_xyz(0, WORLD, 0),
            sensitivity: CameraSensitivity::default(),
            facing: GroundFacing::default(),
        }
    }

    /// One frame: the movement integrator, then the look integrator.
    ///
    /// `forward` is the direction the player looked along when the frame
    /// began, so the player moves by where it looked before this frame's
    /// mouse motion turns it.
    pub fn update(&mut self, forward: Direction, input: &InputSnapshot, dt: u32)
        ensures
            final(self).facing@ == resolve(old(self).facing@, forward.x as int, forward.z as int),
            is_unit(final(self).facing@),
            final(self).transform.translation@ == old(self).transform.translation@.plus(
                displacement(final(self).facing@, input.keys, dt as int),
            ).saturated(),
            final(self).transform.rotation@ == looked(
                old(self).transform.rotation@,
                input.mouse,
                old(self).sensitivity,
            ),
            input.mouse.is_zero() ==> final(self).transform.rotation == old(
                self,
            ).transform.rotation,
            final(self).transform.scale == old(self).transform.scale,
            final(self).sensitivity == old(self).sensitivity,
    {
        player_move(dt, self, forward, &input.keys);
        player_look(input.mouse, self);
    }
}

/// The movement integrator.
///
/// Moves the player by the displacement of one frame of `dt` microseconds
/// with `keys` down. The heading is the ground part of `forward`, the
/// direction the player looks along; when `forward` has no ground part the
/// player keeps the heading it had. Only the position and the remembered
/// heading change. A position component that would leave the `i64` range
/// stays at its end.
pub fn player_move(dt: u32, player: &mut Player, forward: Direction, keys: &HeldKeys)
    ensures
        final(player).facing@ == resolve(old(player).facing@, forward.x as int, forward.z as int),
        final(player).transform.translation@ == old(player).transform.translation@.plus(
            displacement(final(player).facing@, *keys, dt as int),
        ).saturated(),
        is_unit(final(player).facing@),
        dt == 0 ==> final(player).transform.translation == old(player).transform.translation,
        final(player).transform.rotation == old(player).transform.rotation,
        final(player).transform.scale == old(player).transform.scale,
        final(player).sensitivity == old(player).sensitivity,
{
    let facing = player.facing.follow(forward);
    let delta = movement_delta(&facing, keys, dt);
    player.facing = facing;
    player.transform.translation = player.transform.translation.translated(delta);
}

/// The look integrator.
///
/// Turns the player by `mouse` at the player's sensitivity. A mouse that did
/// not move changes nothing at all. Only the orientation changes.
pub fn player_look(mouse: MouseDelta, player: &mut Player)
    ensures
        final(player).transform.rotation@ == looked(
            old(player).transform.rotation@,
            mouse,
            old(player).sensitivity,
        ),
        mouse.is_zero() ==> *final(player) == *old(player),
        !mouse.is_zero() ==> final(player).transform.rotation@.is_settled(),
        final(player).transform.translation == old(player).transform.translation,
        final(player).transform.scale == old(player).transform.scale,
        final(player).sensitivity == old(player).sensitivity,
        final(player).facing == old(player).facing,
{
    if !mouse.is_zero() {
        player.transform.rotation = player.transform.rotation.look(mouse, &player.sensitivity);
    }
}

} // verus!
