//! Assembly of the scene: loading the sprite sheet and spawning the two
//! crate entities and the camera, with proofs of the shape of the scene
//! this leaves behind.

use vstd::prelude::*;

use crate::world::AssetKind;
use crate::world::BodyStatus;
use crate::world::Camera;
use crate::world::Collider;
use crate::world::Entity;
use crate::world::Handle;
use crate::world::RigidBody;
use crate::world::SpriteRender;
use crate::world::Transform;
use crate::world::World;

verus! {

/// Where the movable crate starts.
pub const DYNAMIC_CRATE_X: i32 = 30;
/// Where the movable crate starts.
pub const DYNAMIC_CRATE_Y: i32 = 70;
/// Where the fixed crate stands.
pub const STATIC_CRATE_X: i32 = 0;
/// Where the fixed crate stands.
pub const STATIC_CRATE_Y: i32 = 10;
/// Half the side of a crate's square collision box.
pub const CRATE_HALF_EXTENT: i32 = 16;
/// A crate collider's density, in hundredths of a unit.
pub const CRATE_DENSITY_HUNDREDTHS: u32 = 5;
/// Where the camera stands.
pub const CAMERA_X: i32 = 0;
/// Where the camera stands.
pub const CAMERA_Y: i32 = 50;
/// The camera's depth, in front of the sprites.
pub const CAMERA_Z: i32 = 1;
/// The width of the camera's view.
pub const CAMERA_WIDTH: u32 = 100;
/// The height of the camera's view.
pub const CAMERA_HEIGHT: u32 = 100;

/// The entity a crate spawn produces: placed at `(x, y)`, drawing sprite 0
/// of `sheet`, with a body of the given status at rest and a square
/// collider of fixed half-extent and density. It carries no camera.
pub open spec fn crate_entity(sheet: Handle, x: i32, y: i32, status: BodyStatus) -> Entity {
    Entity {
        transform: Some(Transform { x, y, z: 0 }),
        sprite: Some(SpriteRender { sprite_sheet: sheet, sprite_number: 0 }),
        body: Some(RigidBody {
            x,
            y,
            status,
            velocity_x: 0,
            velocity_y: 0,
            velocity_angular: 0,
        }),
        collider: Some(Collider {
            half_extent_x: CRATE_HALF_EXTENT,
            half_extent_y: CRATE_HALF_EXTENT,
            density_hundredths: CRATE_DENSITY_HUNDREDTHS,
        }),
        camera: None,
    }
}

/// The entity the camera spawn produces: an orthographic camera at
/// (0, 50, 1) showing a 100 by 100 view, and nothing else.
pub open spec fn camera_entity() -> Entity {
    Entity {
        transform: Some(Transform { x: CAMERA_X, y: CAMERA_Y, z: CAMERA_Z }),
        sprite: None,
        body: None,
        collider: None,
        camera: Some(Camera { width: CAMERA_WIDTH, height: CAMERA_HEIGHT }),
    }
}

/// The two assets the sprite-sheet load appends: the texture, then the
/// sheet that refers to it.
pub open spec fn sheet_assets(texture: Handle) -> Seq<AssetKind> {
    seq![AssetKind::Texture, AssetKind::SpriteSheet { texture }]
}

/// The two crate entities, in spawn order: the movable one at (30, 70),
/// then the fixed one at (0, 10), both drawing from `sheet`.
pub open spec fn startup_crates(sheet: Handle) -> Seq<Entity> {
    seq![
        crate_entity(sheet, DYNAMIC_CRATE_X, DYNAMIC_CRATE_Y, BodyStatus::Dynamic),
        crate_entity(sheet, STATIC_CRATE_X, STATIC_CRATE_Y, BodyStatus::Static),
    ]
}

/// Every entity startup appends, in spawn order: the two crates, then the
/// camera.
pub open spec fn startup_entities(sheet: Handle) -> Seq<Entity> {
    startup_crates(sheet).push(camera_entity())
}

/// An entity spawned as a crate: it draws a sprite and carries a body with
/// its collider.
pub open spec fn is_crate_entity(e: Entity) -> bool {
    e.sprite is Some && e.body is Some && e.collider is Some
}

/// An entity spawned as a camera.
pub open spec fn is_camera_entity(e: Entity) -> bool {
    e.camera is Some
}

/// How many entities of a table are crate entities.
pub open spec fn crate_entity_count(s: Seq<Entity>) -> nat
    decreases s.len(),
{
    if s.len() == 0 {
        0
    } else {
        crate_entity_count(s.drop_last()) + if is_crate_entity(s.last()) {
            1nat
        } else {
            0nat
        }
    }
}

/// How many entities of a table are camera entities.
pub open spec fn camera_entity_count(s: Seq<Entity>) -> nat
    decreases s.len(),
{
    if s.len() == 0 {
        0
    } else {
        camera_entity_count(s.drop_last()) + if is_camera_entity(s.last()) {
            1nat
        } else {
            0nat
        }
    }
}

/// Loads the crate texture and then the sprite sheet that refers to it,
/// and returns the sheet's handle. Exactly those two assets are appended,
/// in that order; entities are untouched.
pub fn load_sprite_sheet(world: &mut World) -> (h: Handle)
    ensures
        h.id == old(world).assets@.len() + 1,
        final(world).assets@ == old(world).assets@ + sheet_assets(
            Handle { id: (h.id - 1) as usize },
        ),
        final(world).entities@ == old(world).entities@,
{
    let texture_handle = world.load(AssetKind::Texture);
    let h = world.load(AssetKind::SpriteSheet { texture: texture_handle });
    proof {
        assert(world.assets@ =~= old(world).assets@ + sheet_assets(texture_handle));
    }
    h
}

/// Spawns one crate at `(x, y)`: exactly one entity, `crate_entity(sheet,
/// x, y, status)`, is appended; assets are untouched.
pub fn build_crate(world: &mut World, sprite_sheet_handle: Handle, x: i32, y: i32, status: BodyStatus)
    ensures
        final(world).entities@ == old(world).entities@.push(
            crate_entity(sprite_sheet_handle, x, y, status),
        ),
        final(world).assets@ == old(world).assets@,
{
    let mut local_transform = Transform::default();
    local_transform.set_translation_xyz(x, y, 0);

    let sprite_render = SpriteRender { sprite_sheet: sprite_sheet_handle, sprite_number: 0 };

    let body = RigidBody { x, y, status, velocity_x: 0, velocity_y: 0, velocity_angular: 0 };

    let collider = Collider {
        half_extent_x: CRATE_HALF_EXTENT,
        half_extent_y: CRATE_HALF_EXTENT,
        density_hundredths: CRATE_DENSITY_HUNDREDTHS,
    };

    let entity = Entity {
        transform: Some(local_transform),
        sprite: Some(sprite_render),
        body: Some(body),
        collider: Some(collider),
        camera: None,
    };
    let _ = world.create_entity(entity);
}

/// Spawns the two crates: the movable one at (30, 70), then the fixed one
/// at (0, 10), both drawing from `sprite_sheet_handle`. Exactly those two
/// entities are appended; assets are untouched.
pub fn initialize_crate(world: &mut World, sprite_sheet_handle: Handle)
    ensures
        final(world).entities@ == old(world).entities@ + startup_crates(sprite_sheet_handle),
        final(world).assets@ == old(world).assets@,
{
    build_crate(world, sprite_sheet_handle, DYNAMIC_CRATE_X, DYNAMIC_CRATE_Y, BodyStatus::Dynamic);
    build_crate(world, sprite_sheet_handle, STATIC_CRATE_X, STATIC_CRATE_Y, BodyStatus::Static);
    proof {
        assert(world.entities@ =~= old(world).entities@ + startup_crates(sprite_sheet_handle));
    }
}

/// Spawns the camera: exactly one entity, `camera_entity()`, is appended;
/// assets are untouched.
pub fn initialize_camera(world: &mut World)
    ensures
        final(world).entities@ == old(world).entities@.push(camera_entity()),
        final(world).assets@ == old(world).assets@,
{
    let mut transform = Transform::default();
    transform.set_translation_xyz(CAMERA_X, CAMERA_Y, CAMERA_Z);
    let camera = Camera::standard_2d(CAMERA_WIDTH, CAMERA_HEIGHT);

    let entity = Entity {
        transform: Some(transform),
        sprite: None,
        body: None,
        collider: None,
        camera: Some(camera),
    };
    let _ = world.create_entity(entity);
}

/// In a world whose entity table is exactly what startup appends, exactly
/// two entities are crate entities: the first, at (30, 70) with a movable
/// body, and the second, at (0, 10) with a fixed body.
pub proof fn lemma_startup_two_crates(w: World, sheet: Handle)
    requires
        w.entities@ == startup_entities(sheet),
    ensures
        w.entities@.len() == 3,
        crate_entity_count(w.entities@) == 2,
        forall|i: int|
            0 <= i < w.entities@.len() ==> (is_crate_entity(w.entities@[i]) <==> (i == 0 || i
                == 1)),
        w.entities@[0].transform matches Some(t0) && t0.x == DYNAMIC_CRATE_X && t0.y
            == DYNAMIC_CRATE_Y && t0.z == 0,
        w.entities@[0].body matches Some(b0) && b0.status == BodyStatus::Dynamic && b0.x
            == DYNAMIC_CRATE_X && b0.y == DYNAMIC_CRATE_Y,
        w.entities@[1].transform matches Some(t1) && t1.x == STATIC_CRATE_X && t1.y
            == STATIC_CRATE_Y && t1.z == 0,
        w.entities@[1].body matches Some(b1) && b1.status == BodyStatus::Static && b1.x
            == STATIC_CRATE_X && b1.y == STATIC_CRATE_Y,
{
    let s = w.entities@;
    let s2 = s.drop_last();
    let s1 = s2.drop_last();
    let s0 = s1.drop_last();
    assert(s2 =~= startup_crates(sheet));
    assert(s1 =~= seq![
        crate_entity(sheet, DYNAMIC_CRATE_X, DYNAMIC_CRATE_Y, BodyStatus::Dynamic),
    ]);
    assert(s0 =~= Seq::<Entity>::empty());
    assert(crate_entity_count(s0) == 0);
    assert(crate_entity_count(s1) == 1);
    assert(crate_entity_count(s2) == 2);
    assert(crate_entity_count(s) == 2);
}

/// In a world whose entity table is exactly what startup appends, exactly
/// one entity is a camera entity: the last, at (0, 50, 1) with a 100 by
/// 100 view.
pub proof fn lemma_startup_one_camera(w: World, sheet: Handle)
    requires
        w.entities@ == startup_entities(sheet),
    ensures
        w.entities@.len() == 3,
        camera_entity_count(w.entities@) == 1,
        forall|i: int|
            0 <= i < w.entities@.len() ==> (is_camera_entity(w.entities@[i]) <==> i == 2),
        w.entities@[2] == camera_entity(),
        w.entities@[2].transform matches Some(t) && t.x == CAMERA_X && t.y == CAMERA_Y && t.z
            == CAMERA_Z,
        w.entities@[2].camera matches Some(c) && c.width == CAMERA_WIDTH && c.height
            == CAMERA_HEIGHT,
{
    let s = w.entities@;
    let s2 = s.drop_last();
    let s1 = s2.drop_last();
    let s0 = s1.drop_last();
    assert(s2 =~= startup_crates(sheet));
    assert(s1 =~= seq![
        crate_entity(sheet, DYNAMIC_CRATE_X, DYNAMIC_CRATE_Y, BodyStatus::Dynamic),
    ]);
    assert(s0 =~= Seq::<Entity>::empty());
    assert(camera_entity_count(s0) == 0);
    assert(camera_entity_count(s1) == 0);
    assert(camera_entity_count(s2) == 0);
    assert(camera_entity_count(s) == 1);
}

/// In a world whose entity table is exactly what startup appends, the two
/// crate entities draw from one and the same sprite sheet: the one whose
/// handle startup kept.
pub proof fn lemma_startup_shared_sheet(w: World, sheet: Handle)
    requires
        w.entities@ == startup_entities(sheet),
    ensures
        w.entities@[0].sprite matches Some(r0) && w.entities@[1].sprite matches Some(r1)
            && r0.sprite_sheet == r1.sprite_sheet && r0.sprite_sheet == sheet,
{
}

} // verus!
