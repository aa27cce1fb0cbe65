//! The scene as startup leaves it: the two crates, the camera, the shared
//! sprite sheet, and the no-op per-tick dispatcher.

use cratefall::scene::build_crate;
use cratefall::scene::initialize_camera;
use cratefall::scene::initialize_crate;
use cratefall::scene::load_sprite_sheet;
use cratefall::state::Playing;
use cratefall::state::Trans;
use cratefall::world::AssetKind;
use cratefall::world::BodyStatus;
use cratefall::world::Entity;
use cratefall::world::Handle;
use cratefall::world::World;

fn started_world() -> (World, Playing) {
    let mut world = World::new();
    let mut state = Playing::new();
    state.on_start(&mut world);
    (world, state)
}

fn is_crate(e: &Entity) -> bool {
    e.sprite.is_some() && e.body.is_some() && e.collider.is_some()
}

#[test]
fn startup_spawns_exactly_two_crates() {
    let (world, _state) = started_world();
    let crates: Vec<&Entity> = world.entities.iter().filter(|e| is_crate(e)).collect();
    assert_eq!(crates.len(), 2);
    let t0 = crates[0].transform.unwrap();
    let t1 = crates[1].transform.unwrap();
    assert_eq!((t0.x, t0.y, t0.z), (30, 70, 0));
    assert_eq!((t1.x, t1.y, t1.z), (0, 10, 0));
}

#[test]
fn crate_statuses_movable_then_fixed() {
    let (world, _state) = started_world();
    let b0 = world.entities[0].body.unwrap();
    let b1 = world.entities[1].body.unwrap();
    assert_eq!(b0.status, BodyStatus::Dynamic);
    assert_eq!((b0.x, b0.y), (30, 70));
    assert_eq!(b1.status, BodyStatus::Static);
    assert_eq!((b1.x, b1.y), (0, 10));
}

#[test]
fn crates_start_at_rest_with_square_collider() {
    let (world, _state) = started_world();
    for e in world.entities.iter().filter(|e| is_crate(e)) {
        let b = e.body.unwrap();
        assert_eq!((b.velocity_x, b.velocity_y, b.velocity_angular), (0, 0, 0));
        let c = e.collider.unwrap();
        assert_eq!((c.half_extent_x, c.half_extent_y), (16, 16));
        assert_eq!(c.density_hundredths, 5);
        assert_eq!(e.sprite.unwrap().sprite_number, 0);
        assert!(e.camera.is_none());
    }
}

#[test]
fn startup_spawns_exactly_one_camera() {
    let (world, _state) = started_world();
    let cameras: Vec<&Entity> = world.entities.iter().filter(|e| e.camera.is_some()).collect();
    assert_eq!(cameras.len(), 1);
    let t = cameras[0].transform.unwrap();
    assert_eq!((t.x, t.y, t.z), (0, 50, 1));
    let c = cameras[0].camera.unwrap();
    assert_eq!((c.width, c.height), (100, 100));
    assert!(cameras[0].body.is_none());
    assert!(cameras[0].sprite.is_none());
    assert!(cameras[0].collider.is_none());
}

#[test]
fn both_crates_share_one_sprite_sheet_handle() {
    let (world, state) = started_world();
    let h = state.sprite_sheet_handle.expect("startup keeps the sheet handle");
    let s0 = world.entities[0].sprite.unwrap();
    let s1 = world.entities[1].sprite.unwrap();
    assert_eq!(s0.sprite_sheet, s1.sprite_sheet);
    assert_eq!(s0.sprite_sheet, h);
}

#[test]
fn fixed_update_changes_nothing() {
    let (mut world, mut state) = started_world();
    let entities_before = world.entities.clone();
    let assets_before = world.assets.clone();
    let handle_before = state.sprite_sheet_handle;
    let t = state.fixed_update(&mut world);
    assert_eq!(t, Trans::Stay);
    assert_eq!(world.entities, entities_before);
    assert_eq!(world.assets, assets_before);
    assert_eq!(state.sprite_sheet_handle, handle_before);
}

#[test]
fn load_sprite_sheet_appends_texture_then_sheet() {
    let mut world = World::new();
    let h = load_sprite_sheet(&mut world);
    assert_eq!(h, Handle { id: 1 });
    assert_eq!(
        world.assets,
        vec![AssetKind::Texture, AssetKind::SpriteSheet { texture: Handle { id: 0 } }]
    );
    assert!(world.entities.is_empty());
}

#[test]
fn build_crate_appends_one_entity() {
    let mut world = World::new();
    let sheet = load_sprite_sheet(&mut world);
    build_crate(&mut world, sheet, -3, 44, BodyStatus::Static);
    assert_eq!(world.entities.len(), 1);
    let e = &world.entities[0];
    assert!(is_crate(e));
    let t = e.transform.unwrap();
    assert_eq!((t.x, t.y, t.z), (-3, 44, 0));
    assert_eq!(e.body.unwrap().status, BodyStatus::Static);
    assert_eq!(e.sprite.unwrap().sprite_sheet, sheet);
}

#[test]
fn startup_appends_after_existing_entities() {
    let mut world = World::new();
    let sheet = load_sprite_sheet(&mut world);
    build_crate(&mut world, sheet, 5, 6, BodyStatus::Dynamic);
    let before = world.entities.clone();
    let mut state = Playing::new();
    state.on_start(&mut world);
    assert_eq!(world.entities.len(), before.len() + 3);
    assert_eq!(&world.entities[..before.len()], &before[..]);
    assert_eq!(world.assets.len(), 4);
    let h = state.sprite_sheet_handle.unwrap();
    assert_eq!(h, Handle { id: 3 });
    assert_eq!(world.entities[1].sprite.unwrap().sprite_sheet, h);
}

#[test]
fn initialize_crate_spawns_in_order() {
    let mut world = World::new();
    let sheet = load_sprite_sheet(&mut world);
    initialize_crate(&mut world, sheet);
    assert_eq!(world.entities.len(), 2);
    assert_eq!(world.entities[0].body.unwrap().status, BodyStatus::Dynamic);
    assert_eq!(world.entities[1].body.unwrap().status, BodyStatus::Static);
}

#[test]
fn initialize_camera_spawns_only_the_camera() {
    let mut world = World::new();
    initialize_camera(&mut world);
    assert_eq!(world.entities.len(), 1);
    assert!(world.entities[0].camera.is_some());
    assert!(!is_crate(&world.entities[0]));
    assert!(world.assets.is_empty());
}

#[test]
fn playing_new_has_no_sheet_yet() {
    let state = Playing::new();
    assert!(state.sprite_sheet_handle.is_none());
}
