//! The game state: startup assembles the scene once; every later physics
//! tick runs a dispatcher that holds no systems, so it changes nothing.

use vstd::prelude::*;

use crate::scene::initialize_camera;
use crate::scene::initialize_crate;
use crate::scene::load_sprite_sheet;
use crate::scene::sheet_assets;
use crate::scene::startup_entities;
use crate::world::Handle;
use crate::world::World;

verus! {

/// Collects the systems a dispatcher will run. This state registers none.
pub struct DispatcherBuilder {}

impl DispatcherBuilder {
    /// A builder with no system registered.
    pub fn new() -> (b: Self) {
        DispatcherBuilder {}
    }

    /// Builds the dispatcher. Nothing was registered, so it holds no
    /// systems.
    pub fn build(self) -> (d: Dispatcher) {
        Dispatcher {}
    }
}

/// A dispatcher over the systems registered with its builder. Here that is
/// none: running it is a no-op.
pub struct Dispatcher {}

impl Dispatcher {
    /// Runs every held system once. The dispatcher holds none, so the
    /// world comes out exactly as it went in.
    pub fn dispatch(&self, world: &mut World)
        ensures
            *final(world) == *old(world),
    {
    }
}

/// What a state asks of its host after an update step.
#[derive(Clone, Copy, Debug, PartialEq, Eq, Structural)]
pub enum Trans {
    /// Keep running the current state.
    Stay,
}

/// The one state of the program: an empty per-tick dispatcher and, once
/// startup has run, the handle of the crates' shared sprite sheet.
pub struct Playing {
    pub fixed_dispatcher: Dispatcher,
    pub sprite_sheet_handle: Option<Handle>,
}

impl Playing {
    /// A fresh state: the per-tick dispatcher is built with no systems and
    /// no sprite sheet is loaded yet.
    pub fn new() -> (s: Self)
        ensures
            s.sprite_sheet_handle is None,
    {
        let fixed_dispatcher = DispatcherBuilder::new().build();
        Playing { fixed_dispatcher, sprite_sheet_handle: None }
    }

    /// Startup: loads the sprite sheet, keeps its handle, and spawns the
    /// two crates and the camera. Exactly the two sheet assets and the
    /// three startup entities are appended, in order, and both crates draw
    /// from the handle kept in the state.
    pub fn on_start(&mut self, world: &mut World)
        ensures
            final(self).sprite_sheet_handle matches Some(h) && {
                &&& h.id == old(world).assets@.len() + 1
                &&& final(world).assets@ == old(world).assets@ + sheet_assets(
                    Handle { id: (h.id - 1) as usize },
                )
                &&& final(world).entities@ == old(world).entities@ + startup_entities(h)
            },
    {
        let handle = load_sprite_sheet(world);
        self.sprite_sheet_handle = Some(handle);

        initialize_crate(world, handle);
        initialize_camera(world);
        proof {
            assert(world.entities@ =~= old(world).entities@ + startup_entities(handle));
        }
    }

    /// One physics tick: dispatches the empty per-tick dispatcher. The
    /// world and the state come out exactly as they went in, and no
    /// transition is requested.
    pub fn fixed_update(&mut self, world: &mut World) -> (t: Trans)
        ensures
            *final(world) == *old(world),
            *final(self) == *old(self),
            t == Trans::Stay,
    {
        self.fixed_dispatcher.dispatch(world);
        Trans::Stay
    }
}

} // verus!
