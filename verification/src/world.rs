//! The scene world: an entity table and an asset table.
//!
//! Every quantity is a plain integer. Positions and half-extents are whole
//! units; a collider's density is stored in hundredths of a unit, so the
//! value 5 stands for five hundredths.

use vstd::prelude::*;

verus! {

/// A handle to a loaded asset, reduced to its identity: two handles denote
/// the same underlying asset exactly when their ids are equal. The id is the
/// asset's index in the world's asset table.
#[derive(Clone, Copy, Debug, PartialEq, Eq, Structural)]
pub struct Handle {
    pub id: usize,
}

/// What kind of asset an asset-table entry is. A sprite sheet combines a
/// previously loaded texture with sprite metadata.
#[derive(Clone, Copy, Debug, PartialEq, Eq, Structural)]
pub enum AssetKind {
    Texture,
    SpriteSheet { texture: Handle },
}

/// Whether a rigid body is simulated (movable) or anchored in place (fixed).
#[derive(Clone, Copy, Debug, PartialEq, Eq, Structural)]
pub enum BodyStatus {
    Dynamic,
    Static,
}

/// An entity's placement: a translation in whole units. Depth (`z`) orders
/// entities front to back.
#[derive(Clone, Copy, Debug, PartialEq, Eq, Structural)]
pub struct Transform {
    pub x: i32,
    pub y: i32,
    pub z: i32,
}

impl Transform {
    /// Overwrites the whole translation.
    pub fn set_translation_xyz(&mut self, x: i32, y: i32, z: i32)
        ensures
            *final(self) == (Transform { x, y, z }),
    {
        self.x = x;
        self.y = y;
        self.z = z;
    }
}

impl Default for Transform {
    /// The identity placement: translation zero.
    fn default() -> (t: Self)
        ensures
            t == (Transform { x: 0, y: 0, z: 0 }),
    {
        Transform { x: 0, y: 0, z: 0 }
    }
}

/// A renderable sprite: which sheet it comes from and which sprite of that
/// sheet is drawn.
#[derive(Clone, Copy, Debug, PartialEq, Eq, Structural)]
pub struct SpriteRender {
    pub sprite_sheet: Handle,
    pub sprite_number: usize,
}

/// A physics-simulated body: where it starts, whether it may move, and its
/// initial linear and angular velocity.
#[derive(Clone, Copy, Debug, PartialEq, Eq, Structural)]
pub struct RigidBody {
    pub x: i32,
    pub y: i32,
    pub status: BodyStatus,
    pub velocity_x: i32,
    pub velocity_y: i32,
    pub velocity_angular: i32,
}

/// A collision shape attached to the body of the entity that carries it:
/// an axis-aligned box given by its half-extents, with a density in
/// hundredths of a unit.
#[derive(Clone, Copy, Debug, PartialEq, Eq, Structural)]
pub struct Collider {
    pub half_extent_x: i32,
    pub half_extent_y: i32,
    pub density_hundredths: u32,
}

/// An orthographic camera: the width and height of the view it shows.
#[derive(Clone, Copy, Debug, PartialEq, Eq, Structural)]
pub struct Camera {
    pub width: u32,
    pub height: u32,
}

impl Camera {
    /// A standard two-dimensional camera showing a `width` by `height` view.
    pub fn standard_2d(width: u32, height: u32) -> (c: Self)
        ensures
            c == (Camera { width, height }),
    {
        Camera { width, height }
    }
}

/// An entity: a bundle of optional components. A component an entity lacks
/// is `None`.
#[derive(Clone, Copy, Debug, PartialEq, Eq)]
pub struct Entity {
    pub transform: Option<Transform>,
    pub sprite: Option<SpriteRender>,
    pub body: Option<RigidBody>,
    pub collider: Option<Collider>,
    pub camera: Option<Camera>,
}

/// The scene world: the entities created so far and the assets loaded so
/// far, each in order of creation.
pub struct World {
    pub entities: Vec<Entity>,
    pub assets: Vec<AssetKind>,
}

impl World {
    /// An empty world: no entities, no assets.
    pub fn new() -> (w: Self)
        ensures
            w.entities@ == Seq::<Entity>::empty(),
            w.assets@ == Seq::<AssetKind>::empty(),
    {
        World { entities: Vec::new(), assets: Vec::new() }
    }

    /// Creates one entity with the given components and returns its index in
    /// the entity table. Assets are untouched.
    pub fn create_entity(&mut self, entity: Entity) -> (id: usize)
        ensures
            final(self).entities@ == old(self).entities@.push(entity),
            final(self).assets@ == old(self).assets@,
            id == old(self).entities@.len(),
    {
        let id = self.entities.len();
        self.entities.push(entity);
        id
    }

    /// Loads one asset and returns its handle: the asset is appended to the
    /// asset table and the handle carries its index. Entities are untouched.
    pub fn load(&mut self, kind: AssetKind) -> (h: Handle)
        ensures
            final(self).assets@ == old(self).assets@.push(kind),
            final(self).entities@ == old(self).entities@,
            h.id == old(self).assets@.len(),
    {
        let id = self.assets.len();
        self.assets.push(kind);
        Handle { id }
    }
}

} // verus!
