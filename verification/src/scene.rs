//! The scene description: the ground collider, the drone rigid body with its
//! collider cluster, and the camera rig.
//!
//! All coordinates and scalar modifiers are fixed-point integers in
//! thousandths of a world unit (`MILLI` per unit).

use vstd::prelude::*;

verus! {

/// One world unit, in fixed-point thousandths.
pub const MILLI: i64 = 1000;

/// A point or vector in world or body-local space, components in thousandths
/// of a world unit.
#[derive(Clone, Copy, Debug, PartialEq, Eq)]
pub struct Vec3 {
    pub x: i64,
    pub y: i64,
    pub z: i64,
}

impl Vec3 {
    /// The origin.
    pub open spec fn spec_zero() -> Vec3 {
        Vec3 { x: 0, y: 0, z: 0 }
    }

    pub fn zero() -> (r: Vec3)
        ensures
            r == Vec3::spec_zero(),
    {
        Vec3 { x: 0, y: 0, z: 0 }
    }
}

/// An RGBA colour, channels in thousandths (0 to 1000).
#[derive(Clone, Copy, Debug, PartialEq, Eq)]
pub struct Rgba {
    pub red: i64,
    pub green: i64,
    pub blue: i64,
    pub alpha: i64,
}

/// A collision shape, dimensions in thousandths of a world unit.
#[derive(Clone, Copy, Debug, PartialEq, Eq)]
pub enum ColliderShape {
    /// A box given by its three half-extents.
    Cuboid { half_x: i64, half_y: i64, half_z: i64 },
    /// A cylinder given by its half-height and radius, axis along Y.
    Cylinder { half_height: i64, radius: i64 },
}

/// A collider attached to a rigid body, its offset in the body's local frame.
#[derive(Clone, Copy, Debug, PartialEq, Eq)]
pub struct ColliderDesc {
    pub shape: ColliderShape,
    pub offset: Vec3,
    pub debug_color: Option<Rgba>,
}

/// The static ground collider, posed directly in world space.
#[derive(Clone, Copy, Debug, PartialEq, Eq)]
pub struct GroundDesc {
    pub shape: ColliderShape,
    pub translation: Vec3,
}

/// Velocity attenuation applied to the body each simulation step, in
/// thousandths.
#[derive(Clone, Copy, Debug, PartialEq, Eq)]
pub struct DampingDesc {
    pub linear: i64,
    pub angular: i64,
}

/// A constant external force and torque applied to the body every step.
#[derive(Clone, Copy, Debug, PartialEq, Eq)]
pub struct ExternalForceDesc {
    pub force: Vec3,
    pub torque: Vec3,
}

/// The dynamic drone rigid body: its starting pose, optional per-body
/// modifiers, and the colliders that make up its physical footprint, each in
/// the body's local frame.
#[derive(Clone, Debug, PartialEq, Eq)]
pub struct BodyDesc {
    pub translation: Vec3,
    pub gravity_scale: Option<i64>,
    pub damping: Option<DampingDesc>,
    pub external_force: Option<ExternalForceDesc>,
    pub colliders: Vec<ColliderDesc>,
}

/// The free-look camera rig: where the camera sits and what it looks at.
#[derive(Clone, Copy, Debug, PartialEq, Eq)]
pub struct CameraDesc {
    pub eye: Vec3,
    pub target: Vec3,
}

/// The whole scene handed to the engine at startup.
#[derive(Clone, Debug, PartialEq, Eq)]
pub struct SceneDesc {
    pub ground: GroundDesc,
    pub drone: BodyDesc,
    pub camera: CameraDesc,
}

/// The two near-identical scenes this crate describes. They share the camera
/// and the drone's collider cluster and differ only in the ground's pose and
/// in the body modifiers.
#[derive(Clone, Copy, Debug, PartialEq, Eq)]
pub enum SceneVariant {
    /// Half gravity, unit linear and angular damping, and a constant torque
    /// about the world Z axis; the ground slab sits at the origin.
    Spinning,
    /// No per-body overrides at all; the ground slab is lowered two units.
    Freefall,
}

/// Half-length of a drone arm: how far the cuboid segments reach and where
/// the cylinder tips sit, in thousandths.
pub const DRONE_ARM: i64 = 750;

/// Half-thickness of the drone's segments, and the cylinders' half-height and
/// radius, in thousandths.
pub const DRONE_THICKNESS: i64 = 100;

/// The arm half-length in the negative axis direction.
pub const NEG_DRONE_ARM: i64 = -750;

/// The ground slab's half-extent along X and Z: a hundred units.
pub const GROUND_HALF_SPAN: i64 = 100_000;

/// The ground slab's half-extent along Y: a tenth of a unit.
pub const GROUND_HALF_HEIGHT: i64 = 100;

/// The freefall scene's ground translation along Y: two units below the
/// origin.
pub const GROUND_DROP_Y: i64 = -2000;

/// The ground slab's half-extents: a hundred units along X and Z, a tenth of
/// a unit along Y.
pub open spec fn spec_ground_shape() -> ColliderShape {
    ColliderShape::Cuboid { half_x: GROUND_HALF_SPAN, half_y: GROUND_HALF_HEIGHT, half_z: GROUND_HALF_SPAN }
}

/// Where the ground slab sits: at the origin in the spinning scene, two units
/// down in the freefall scene.
pub open spec fn spec_ground_translation(v: SceneVariant) -> Vec3 {
    match v {
        SceneVariant::Spinning => Vec3 { x: 0, y: 0, z: 0 },
        SceneVariant::Freefall => Vec3 { x: 0, y: GROUND_DROP_Y, z: 0 },
    }
}

/// The ground collider of the given scene.
pub open spec fn spec_ground(v: SceneVariant) -> GroundDesc {
    GroundDesc { shape: spec_ground_shape(), translation: spec_ground_translation(v) }
}

/// Builds the static ground collider.
pub fn ground_collider(v: SceneVariant) -> (r: GroundDesc)
    ensures
        r == spec_ground(v),
{
    let translation = match v {
        SceneVariant::Spinning => Vec3 { x: 0, y: 0, z: 0 },
        SceneVariant::Freefall => Vec3 { x: 0, y: GROUND_DROP_Y, z: 0 },
    };
    GroundDesc {
        shape: ColliderShape::Cuboid { half_x: GROUND_HALF_SPAN, half_y: GROUND_HALF_HEIGHT, half_z: GROUND_HALF_SPAN },
        translation,
    }
}

/// The drone's starting translation: five units above the origin.
pub const DRONE_START_Y: i64 = 5000;

/// The spinning scene's gravity scale: half the global gravity.
pub const HALF_GRAVITY: i64 = 500;

/// The spinning scene's linear and angular damping: one unit each.
pub const UNIT_DAMPING: i64 = 1000;

/// The spinning scene's constant torque about the world Z axis: one and a
/// half units.
pub const SPIN_TORQUE_Z: i64 = 1500;

/// The tip cylinder shape shared by all four drone arms.
pub open spec fn spec_tip_shape() -> ColliderShape {
    ColliderShape::Cylinder { half_height: DRONE_THICKNESS, radius: DRONE_THICKNESS }
}

/// The drone's collider cluster, in the body's local frame: two cuboid
/// segments crossing at the origin (one long along X, one long along Z) and
/// four cylinders at the arm tips, each with its own debug colour.
pub open spec fn spec_drone_colliders() -> Seq<ColliderDesc> {
    seq![
        ColliderDesc {
            shape: ColliderShape::Cuboid { half_x: DRONE_ARM, half_y: DRONE_THICKNESS, half_z: DRONE_THICKNESS },
            offset: Vec3 { x: 0, y: 0, z: 0 },
            debug_color: None,
        },
        ColliderDesc {
            shape: ColliderShape::Cuboid { half_x: DRONE_THICKNESS, half_y: DRONE_THICKNESS, half_z: DRONE_ARM },
            offset: Vec3 { x: 0, y: 0, z: 0 },
            debug_color: None,
        },
        ColliderDesc {
            shape: spec_tip_shape(),
            offset: Vec3 { x: DRONE_ARM, y: 0, z: 0 },
            debug_color: Some(Rgba { red: 0, green: 1000, blue: 1000, alpha: 1000 }),
        },
        ColliderDesc {
            shape: spec_tip_shape(),
            offset: Vec3 { x: NEG_DRONE_ARM, y: 0, z: 0 },
            debug_color: Some(Rgba { red: 0, green: 0, blue: 1000, alpha: 1000 }),
        },
        ColliderDesc {
            shape: spec_tip_shape(),
            offset: Vec3 { x: 0, y: 0, z: DRONE_ARM },
            debug_color: Some(Rgba { red: 1000, green: 1000, blue: 0, alpha: 1000 }),
        },
        ColliderDesc {
            shape: spec_tip_shape(),
            offset: Vec3 { x: 0, y: 0, z: NEG_DRONE_ARM },
            debug_color: Some(Rgba { red: 0, green: 1000, blue: 0, alpha: 1000 }),
        },
    ]
}

/// The gravity scale of the given scene: half gravity when spinning, the
/// engine default otherwise.
pub open spec fn spec_gravity_scale(v: SceneVariant) -> Option<i64> {
    match v {
        SceneVariant::Spinning => Some(HALF_GRAVITY),
        SceneVariant::Freefall => None,
    }
}

/// The damping of the given scene: one unit linear and angular when spinning,
/// the engine default otherwise.
pub open spec fn spec_damping(v: SceneVariant) -> Option<DampingDesc> {
    match v {
        SceneVariant::Spinning => Some(DampingDesc { linear: UNIT_DAMPING, angular: UNIT_DAMPING }),
        SceneVariant::Freefall => None,
    }
}

/// The constant external force of the given scene: no force and a torque of
/// one and a half units about Z when spinning, none at all otherwise.
pub open spec fn spec_external_force(v: SceneVariant) -> Option<ExternalForceDesc> {
    match v {
        SceneVariant::Spinning => Some(ExternalForceDesc {
            force: Vec3 { x: 0, y: 0, z: 0 },
            torque: Vec3 { x: 0, y: 0, z: SPIN_TORQUE_Z },
        }),
        SceneVariant::Freefall => None,
    }
}

/// What the drone body of the given scene looks like: starting five units up,
/// carrying the variant's modifiers, with the fixed collider cluster.
pub open spec fn body_matches(b: BodyDesc, v: SceneVariant) -> bool {
    &&& b.translation == (Vec3 { x: 0, y: DRONE_START_Y, z: 0 })
    &&& b.gravity_scale == spec_gravity_scale(v)
    &&& b.damping == spec_damping(v)
    &&& b.external_force == spec_external_force(v)
    &&& b.colliders@ == spec_drone_colliders()
}

/// Builds the dynamic drone rigid body of the given scene.
pub fn drone_body(v: SceneVariant) -> (r: BodyDesc)
    ensures
        body_matches(r, v),
{
    let mut colliders: Vec<ColliderDesc> = Vec::new();
    colliders.push(ColliderDesc {
        shape: ColliderShape::Cuboid { half_x: DRONE_ARM, half_y: DRONE_THICKNESS, half_z: DRONE_THICKNESS },
        offset: Vec3 { x: 0, y: 0, z: 0 },
        debug_color: None,
    });
    colliders.push(ColliderDesc {
        shape: ColliderShape::Cuboid { half_x: DRONE_THICKNESS, half_y: DRONE_THICKNESS, half_z: DRONE_ARM },
        offset: Vec3 { x: 0, y: 0, z: 0 },
        debug_color: None,
    });
    colliders.push(ColliderDesc {
        shape: ColliderShape::Cylinder { half_height: DRONE_THICKNESS, radius: DRONE_THICKNESS },
        offset: Vec3 { x: DRONE_ARM, y: 0, z: 0 },
        debug_color: Some(Rgba { red: 0, green: 1000, blue: 1000, alpha: 1000 }),
    });
    colliders.push(ColliderDesc {
        shape: ColliderShape::Cylinder { half_height: DRONE_THICKNESS, radius: DRONE_THICKNESS },
        offset: Vec3 { x: NEG_DRONE_ARM, y: 0, z: 0 },
        debug_color: Some(Rgba { red: 0, green: 0, blue: 1000, alpha: 1000 }),
    });
    colliders.push(ColliderDesc {
        shape: ColliderShape::Cylinder { half_height: DRONE_THICKNESS, radius: DRONE_THICKNESS },
        offset: Vec3 { x: 0, y: 0, z: DRONE_ARM },
        debug_color: Some(Rgba { red: 1000, green: 1000, blue: 0, alpha: 1000 }),
    });
    colliders.push(ColliderDesc {
        shape: ColliderShape::Cylinder { half_height: DRONE_THICKNESS, radius: DRONE_THICKNESS },
        offset: Vec3 { x: 0, y: 0, z: NEG_DRONE_ARM },
        debug_color: Some(Rgba { red: 0, green: 1000, blue: 0, alpha: 1000 }),
    });
    proof {
        assert(colliders@ =~= spec_drone_colliders());
    }
    let (gravity_scale, damping, external_force) = match v {
        SceneVariant::Spinning => (
            Some(HALF_GRAVITY),
            Some(DampingDesc { linear: UNIT_DAMPING, angular: UNIT_DAMPING }),
            Some(ExternalForceDesc {
                force: Vec3 { x: 0, y: 0, z: 0 },
                torque: Vec3 { x: 0, y: 0, z: SPIN_TORQUE_Z },
            }),
        ),
        SceneVariant::Freefall => (None, None, None),
    };
    BodyDesc {
        translation: Vec3 { x: 0, y: DRONE_START_Y, z: 0 },
        gravity_scale,
        damping,
        external_force,
        colliders,
    }
}

/// The camera eye's starting position, component by component: five units
/// left, five up, ten forward.
pub const CAMERA_EYE_X: i64 = -5000;

/// See `CAMERA_EYE_X`.
pub const CAMERA_EYE_Y: i64 = 5000;

/// See `CAMERA_EYE_X`.
pub const CAMERA_EYE_Z: i64 = 10_000;

/// Where the camera sits and what it looks at.
pub open spec fn spec_camera_rig() -> CameraDesc {
    CameraDesc {
        eye: Vec3 { x: CAMERA_EYE_X, y: CAMERA_EYE_Y, z: CAMERA_EYE_Z },
        target: Vec3 { x: 0, y: 0, z: 0 },
    }
}

/// Builds the free-look camera rig: five units back and to the left, five up,
/// ten forward, looking at the origin.
pub fn camera_rig() -> (r: CameraDesc)
    ensures
        r == spec_camera_rig(),
{
    CameraDesc {
        eye: Vec3 { x: CAMERA_EYE_X, y: CAMERA_EYE_Y, z: CAMERA_EYE_Z },
        target: Vec3 { x: 0, y: 0, z: 0 },
    }
}

/// What a whole scene of the given variant looks like.
pub open spec fn scene_matches(s: SceneDesc, v: SceneVariant) -> bool {
    &&& s.ground == spec_ground(v)
    &&& body_matches(s.drone, v)
    &&& s.camera == spec_camera_rig()
}

/// Builds the whole scene of the given variant: the ground slab, the drone
/// body with its collider cluster and modifiers, and the camera rig.
pub fn build_scene(v: SceneVariant) -> (s: SceneDesc)
    ensures
        scene_matches(s, v),
{
    SceneDesc { ground: ground_collider(v), drone: drone_body(v), camera: camera_rig() }
}

/// A collision shape makes geometric sense: every extent is positive.
pub open spec fn shape_wf(s: ColliderShape) -> bool {
    match s {
        ColliderShape::Cuboid { half_x, half_y, half_z } => half_x > 0 && half_y > 0 && half_z > 0,
        ColliderShape::Cylinder { half_height, radius } => half_height > 0 && radius > 0,
    }
}

/// A body description makes sense: it has at least one collider and every
/// collider's shape is well formed.
pub open spec fn body_wf(b: BodyDesc) -> bool {
    &&& b.colliders@.len() > 0
    &&& forall|i: int| 0 <= i < b.colliders@.len() ==> shape_wf(b.colliders@[i].shape)
}

/// An offset sits at an arm tip: at the arm half-length along the positive or
/// negative X or Z axis, on the body's horizontal plane.
pub open spec fn at_arm_tip(o: Vec3) -> bool {
    o.y == 0 && ((o.z == 0 && (o.x == DRONE_ARM || o.x == NEG_DRONE_ARM)) || (o.x == 0 && (o.z
        == DRONE_ARM || o.z == NEG_DRONE_ARM)))
}

/// The drone's collider cluster, whatever the variant: exactly six colliders,
/// of which the first two are the cuboid cross segments centred on the body
/// and the last four are identical tip cylinders, one at each arm tip.
pub proof fn lemma_drone_collider_layout()
    ensures
        spec_drone_colliders().len() == 6,
        forall|i: int| 0 <= i < 6 ==> ((#[trigger] spec_drone_colliders()[i]).shape is Cuboid
            <==> i < 2),
        forall|i: int| 0 <= i < 2 ==> (#[trigger] spec_drone_colliders()[i]).offset
            == Vec3::spec_zero(),
        forall|i: int| 2 <= i < 6 ==> (#[trigger] spec_drone_colliders()[i]).shape
            == spec_tip_shape(),
        forall|i: int| 2 <= i < 6 ==> at_arm_tip((#[trigger] spec_drone_colliders()[i]).offset),
        forall|i: int, j: int| 2 <= i < j < 6 ==> (#[trigger] spec_drone_colliders()[i]).offset
            != (#[trigger] spec_drone_colliders()[j]).offset,
{
}

/// Every scene this crate builds is well formed: the ground's shape has
/// positive extents, the drone carries at least one collider, and every drone
/// collider's shape has positive extents, whichever variant was asked for.
pub proof fn lemma_scene_wf(s: SceneDesc, v: SceneVariant)
    requires
        scene_matches(s, v),
    ensures
        shape_wf(s.ground.shape),
        body_wf(s.drone),
{
    assert(forall|i: int| 0 <= i < s.drone.colliders@.len() ==> shape_wf(
        #[trigger] s.drone.colliders@[i].shape,
    )) by {
        assert(s.drone.colliders@ == spec_drone_colliders());
    }
}

} // verus!
