use drone_scene::scene::{
    build_scene, camera_rig, drone_body, ground_collider, BodyDesc, CameraDesc, ColliderDesc,
    ColliderShape, GroundDesc, Rgba, SceneVariant, Vec3,
};

fn v3(x: i64, y: i64, z: i64) -> Vec3 {
    Vec3 { x, y, z }
}

#[test]
fn ground_spinning_scene() {
    let g = ground_collider(SceneVariant::Spinning);
    assert_eq!(
        g,
        GroundDesc {
            shape: ColliderShape::Cuboid { half_x: 100_000, half_y: 100, half_z: 100_000 },
            translation: v3(0, 0, 0),
        }
    );
}

#[test]
fn ground_freefall_scene() {
    let g = ground_collider(SceneVariant::Freefall);
    assert_eq!(
        g.shape,
        ColliderShape::Cuboid { half_x: 100_000, half_y: 100, half_z: 100_000 }
    );
    assert_eq!(g.translation, v3(0, -2000, 0));
}

fn expected_colliders() -> Vec<ColliderDesc> {
    let tip = ColliderShape::Cylinder { half_height: 100, radius: 100 };
    vec![
        ColliderDesc {
            shape: ColliderShape::Cuboid { half_x: 750, half_y: 100, half_z: 100 },
            offset: v3(0, 0, 0),
            debug_color: None,
        },
        ColliderDesc {
            shape: ColliderShape::Cuboid { half_x: 100, half_y: 100, half_z: 750 },
            offset: v3(0, 0, 0),
            debug_color: None,
        },
        ColliderDesc {
            shape: tip,
            offset: v3(750, 0, 0),
            debug_color: Some(Rgba { red: 0, green: 1000, blue: 1000, alpha: 1000 }),
        },
        ColliderDesc {
            shape: tip,
            offset: v3(-750, 0, 0),
            debug_color: Some(Rgba { red: 0, green: 0, blue: 1000, alpha: 1000 }),
        },
        ColliderDesc {
            shape: tip,
            offset: v3(0, 0, 750),
            debug_color: Some(Rgba { red: 1000, green: 1000, blue: 0, alpha: 1000 }),
        },
        ColliderDesc {
            shape: tip,
            offset: v3(0, 0, -750),
            debug_color: Some(Rgba { red: 0, green: 1000, blue: 0, alpha: 1000 }),
        },
    ]
}

#[test]
fn drone_collider_cluster() {
    let b = drone_body(SceneVariant::Spinning);
    assert_eq!(b.colliders, expected_colliders());
    // The cluster is the same in both scenes.
    let b2 = drone_body(SceneVariant::Freefall);
    assert_eq!(b2.colliders, expected_colliders());
}

#[test]
fn drone_has_two_boxes_and_four_cylinders() {
    let b = drone_body(SceneVariant::Spinning);
    let boxes = b
        .colliders
        .iter()
        .filter(|c| matches!(c.shape, ColliderShape::Cuboid { .. }))
        .count();
    let cylinders = b
        .colliders
        .iter()
        .filter(|c| matches!(c.shape, ColliderShape::Cylinder { .. }))
        .count();
    assert_eq!(boxes, 2);
    assert_eq!(cylinders, 4);
    for c in b.colliders.iter() {
        if let ColliderShape::Cylinder { half_height, radius } = c.shape {
            assert_eq!(half_height, 100);
            assert_eq!(radius, 100);
            assert_eq!(c.offset.y, 0);
            assert!(
                (c.offset.z == 0 && (c.offset.x == 750 || c.offset.x == -750))
                    || (c.offset.x == 0 && (c.offset.z == 750 || c.offset.z == -750))
            );
        }
    }
}

#[test]
fn drone_spinning_modifiers() {
    let b = drone_body(SceneVariant::Spinning);
    assert_eq!(b.translation, v3(0, 5000, 0));
    assert_eq!(b.gravity_scale, Some(500));
    let d = b.damping.expect("spinning body is damped");
    assert_eq!(d.linear, 1000);
    assert_eq!(d.angular, 1000);
    let f = b.external_force.expect("spinning body carries a torque");
    assert_eq!(f.force, v3(0, 0, 0));
    assert_eq!(f.torque, v3(0, 0, 1500));
}

#[test]
fn drone_freefall_has_no_overrides() {
    let b = drone_body(SceneVariant::Freefall);
    assert_eq!(b.translation, v3(0, 5000, 0));
    assert_eq!(b.gravity_scale, None);
    assert_eq!(b.damping, None);
    assert_eq!(b.external_force, None);
}

#[test]
fn camera_rig_pose() {
    let c = camera_rig();
    assert_eq!(c, CameraDesc { eye: v3(-5000, 5000, 10_000), target: v3(0, 0, 0) });
}

#[test]
fn whole_scene_composition() {
    let s = build_scene(SceneVariant::Spinning);
    assert_eq!(s.ground, ground_collider(SceneVariant::Spinning));
    assert_eq!(s.camera, camera_rig());
    let b: &BodyDesc = &s.drone;
    assert_eq!(b, &drone_body(SceneVariant::Spinning));
}

#[test]
fn vec3_zero_is_origin() {
    assert_eq!(Vec3::zero(), v3(0, 0, 0));
}
