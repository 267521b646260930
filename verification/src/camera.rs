//! The camera motion controller: a movement flag and the displacement that
//! every tick reports for the one camera.

use vstd::prelude::*;
use crate::lifecycle::Entity;

verus! {

/// Horizontal distance, in whole units, that a moving camera covers per tick.
pub const CAMERA_STEP: i32 = 10;

/// Whether the camera is moving.
#[derive(Clone, Copy, Debug, PartialEq, Eq)]
pub struct CameraMovement {
    is_moving: bool,
}

/// One tick's camera movement, in whole distance units.
#[derive(Clone, Copy, PartialEq, Eq, Structural, Debug)]
pub struct DisplacementEvent {
    pub translation_x: i32,
    pub translation_y: i32,
    pub rotation: i32,
    pub camera: Entity,
}

impl CameraMovement {
    /// The flag's value.
    pub closed spec fn moving(&self) -> bool {
        self.is_moving
    }

    pub fn new(is_moving: bool) -> (m: Self)
        ensures
            m.moving() == is_moving,
    {
        CameraMovement { is_moving }
    }

    pub fn is_moving(&self) -> (b: bool)
        ensures
            b == self.moving(),
    {
        self.is_moving
    }
}

/// The displacement that a tick reports for `camera` under the flag `moving`.
pub open spec fn displacement(moving: bool, camera: Entity) -> DisplacementEvent {
    DisplacementEvent {
        translation_x: if moving { CAMERA_STEP } else { 0 },
        translation_y: 0,
        rotation: 0,
        camera,
    }
}

/// Sets the movement flag.
pub fn move_camera(camera_movement: &mut CameraMovement)
    ensures
        final(camera_movement).moving(),
{
    camera_movement.is_moving = true;
}

/// Clears the movement flag.
pub fn stop_camera(camera_movement: &mut CameraMovement)
    ensures
        !final(camera_movement).moving(),
{
    camera_movement.is_moving = false;
}

/// The controller's step of one tick. It reports a displacement whether or not
/// the camera moves, so that its consumer sees one event per tick. There must
/// be exactly one camera to address.
pub fn move_camera_system(cameras: &Vec<Entity>, camera_movement: &CameraMovement) -> (event:
    DisplacementEvent)
    requires
        cameras@.len() == 1,
    ensures
        event == displacement(camera_movement.moving(), cameras@[0]),
{
    let camera = cameras[0];
    if camera_movement.is_moving {
        DisplacementEvent { translation_x: CAMERA_STEP, translation_y: 0, rotation: 0, camera }
    } else {
        DisplacementEvent { translation_x: 0, translation_y: 0, rotation: 0, camera }
    }
}

/// While the flag is set, every tick reports the same nonzero horizontal step
/// and no rotation, whichever camera it addresses.
pub proof fn lemma_moving_displacement(camera_movement: CameraMovement, camera: Entity)
    requires
        camera_movement.moving(),
    ensures
        displacement(camera_movement.moving(), camera).translation_x == CAMERA_STEP,
        CAMERA_STEP != 0,
        displacement(camera_movement.moving(), camera).translation_y == 0,
        displacement(camera_movement.moving(), camera).rotation == 0,
        displacement(camera_movement.moving(), camera).camera == camera,
{
}

/// While the flag is clear, every tick still reports an event, and its
/// translation and rotation are zero.
pub proof fn lemma_resting_displacement(camera_movement: CameraMovement, camera: Entity)
    requires
        !camera_movement.moving(),
    ensures
        displacement(camera_movement.moving(), camera) == (DisplacementEvent {
            translation_x: 0,
            translation_y: 0,
            rotation: 0,
            camera,
        }),
{
}

} // verus!
