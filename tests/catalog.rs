use redox_core::catalog::{
    contact_of, get_hitbox_for_id, get_object_type_for_id, portal_effect, Bounds, Contact,
    GameObjectType, HitboxShape, PortalState,
};
use redox_core::state::GameMode;

#[test]
fn blocks_are_solid_thirty_unit_squares() {
    for id in [1, 4, 6, 7, 63, 1226] {
        assert_eq!(get_object_type_for_id(id), GameObjectType::Solid);
        assert_eq!(get_hitbox_for_id(id), (HitboxShape::Rectangle, 3000, 3000));
    }
    assert_eq!(get_object_type_for_id(5), GameObjectType::Unknown);
}

#[test]
fn spikes_are_hazards_with_narrow_hitboxes() {
    assert_eq!(get_object_type_for_id(8), GameObjectType::Hazard);
    assert_eq!(get_hitbox_for_id(8), (HitboxShape::Rectangle, 600, 1200));
    assert_eq!(get_object_type_for_id(103), GameObjectType::Hazard);
    assert_eq!(get_hitbox_for_id(103), (HitboxShape::Rectangle, 400, 760));
    assert_eq!(get_hitbox_for_id(720), (HitboxShape::Rectangle, 240, 320));
}

#[test]
fn sawblades_are_circles() {
    assert_eq!(get_object_type_for_id(88), GameObjectType::Sawblade);
    assert_eq!(get_hitbox_for_id(88), (HitboxShape::Circle, 3230, 3230));
    assert_eq!(get_hitbox_for_id(183), (HitboxShape::Circle, 1566, 1566));
    assert_eq!(get_hitbox_for_id(185), (HitboxShape::Circle, 285, 285));
    assert_eq!(get_object_type_for_id(1702), GameObjectType::Sawblade);
}

#[test]
fn portals_have_their_categories_and_sizes() {
    assert_eq!(get_object_type_for_id(13), GameObjectType::ShipPortal);
    assert_eq!(get_object_type_for_id(12), GameObjectType::CubePortal);
    assert_eq!(get_object_type_for_id(11), GameObjectType::InverseGravityPortal);
    assert_eq!(get_object_type_for_id(10), GameObjectType::NormalGravityPortal);
    assert_eq!(get_hitbox_for_id(13), (HitboxShape::Rectangle, 3400, 8600));
    assert_eq!(get_hitbox_for_id(10), (HitboxShape::Rectangle, 2500, 7500));
    assert_eq!(get_object_type_for_id(1334), GameObjectType::Special);
}

#[test]
fn slopes_pads_rings_and_breakables() {
    assert_eq!(get_object_type_for_id(289), GameObjectType::Slope);
    assert_eq!(get_hitbox_for_id(291), (HitboxShape::Rectangle, 6000, 3000));
    assert_eq!(get_object_type_for_id(35), GameObjectType::YellowJumpPad);
    assert_eq!(get_object_type_for_id(36), GameObjectType::YellowJumpRing);
    assert_eq!(get_hitbox_for_id(36), (HitboxShape::Rectangle, 3600, 3600));
    assert_eq!(get_object_type_for_id(143), GameObjectType::Breakable);
    assert_eq!(get_object_type_for_id(363), GameObjectType::Hazard);
}

#[test]
fn unknown_ids_default_to_block_sized_rectangles() {
    for id in [0, -7, 5, 100000, i32::MAX, i32::MIN] {
        assert_eq!(get_object_type_for_id(id), GameObjectType::Unknown);
        assert_eq!(get_hitbox_for_id(id), (HitboxShape::Rectangle, 3000, 3000));
    }
}

#[test]
fn contact_rules_by_category() {
    assert_eq!(contact_of(GameObjectType::Hazard), Contact::Fatal);
    assert_eq!(contact_of(GameObjectType::Sawblade), Contact::Fatal);
    assert_eq!(contact_of(GameObjectType::Solid), Contact::Surface);
    assert_eq!(contact_of(GameObjectType::Slope), Contact::Ignored);
    assert_eq!(contact_of(GameObjectType::Unknown), Contact::Ignored);
    assert_eq!(contact_of(GameObjectType::ShipPortal), Contact::Ignored);
}

#[test]
fn portals_change_mode_gravity_and_bounds() {
    let cube = PortalState { mode: GameMode::Cube, gravity_flipped: false, on_ground: true };
    let (s, b) = portal_effect(GameObjectType::ShipPortal, cube);
    assert_eq!(s, PortalState { mode: GameMode::Ship, gravity_flipped: false, on_ground: false });
    assert_eq!(b, Bounds::Ship);
    let (s2, b2) = portal_effect(GameObjectType::CubePortal, s);
    assert_eq!(s2.mode, GameMode::Cube);
    assert_eq!(b2, Bounds::Unbounded);
    let (s3, b3) = portal_effect(GameObjectType::InverseGravityPortal, cube);
    assert!(s3.gravity_flipped);
    assert_eq!(b3, Bounds::Keep);
    assert_eq!(portal_effect(GameObjectType::InverseGravityPortal, s3).0, s3);
    let (s4, _) = portal_effect(GameObjectType::NormalGravityPortal, s3);
    assert!(!s4.gravity_flipped);
    assert_eq!(portal_effect(GameObjectType::YellowJumpRing, s3), (s3, Bounds::Keep));
    assert_eq!(portal_effect(GameObjectType::Solid, cube), (cube, Bounds::Keep));
}
