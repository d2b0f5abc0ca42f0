//! Sprites: textured quads that are kept ready on the graphics device.

use vstd::prelude::*;
use crate::arena::Arena;
use crate::arena::ArenaKey;
use crate::arena::ArenaState;
use crate::rendering::GpuBackend;

verus! {

/// A vertex of the 2d renderer: a position in the plane and texture
/// coordinates, each a pair of 32 bit floating point numbers given by their
/// bits.
#[derive(Debug, Copy, Clone, PartialEq, Eq, Hash)]
pub struct Vertex2d {
    pub position: [u32; 2],
    pub tex_coords: [u32; 2],
}

/// A quad: four vertices, the indices of its two triangles, and the key of
/// its texture.
#[derive(Debug, Copy, Clone, PartialEq, Eq, Hash)]
pub struct Sprite {
    pub vertices: [Vertex2d; 4],
    pub indices: [u16; 6],
    pub texture: ArenaKey,
}

/// A sprite with its vertex buffer and its index buffer on the graphics
/// device.
pub struct CachedSprite<G: GpuBackend> {
    pub sprite: Sprite,
    pub vertex_buffer: G::Buffer,
    pub index_buffer: G::Buffer,
}

/// The kind of the arena of sprites.
pub const SPRITES: u16 = 4;

/// Keeps the sprites behind keys.
pub struct SpriteRenderer<G: GpuBackend> {
    sprites: Arena<CachedSprite<G>, SPRITES>,
}

impl<G: GpuBackend> SpriteRenderer<G> {
    /// The sprites by their keys.
    pub closed spec fn view(&self) -> ArenaState<CachedSprite<G>> {
        self.sprites.state()
    }

    /// A sprite renderer without sprites.
    pub fn new() -> (renderer: Self)
        ensures
            renderer@ == (ArenaState {
                kind: SPRITES,
                live: Map::<ArenaKey, CachedSprite<G>>::empty(),
                retired: Set::<ArenaKey>::empty(),
            }),
    {
        SpriteRenderer { sprites: Arena::new() }
    }

    /// Keeps the sprite, whose buffers were created on the graphics device,
    /// and returns its key.
    pub fn add_sprite(&mut self, sprite: Sprite, vertex_buffer: G::Buffer, index_buffer: G::Buffer) -> (key:
        ArenaKey)
        ensures
            old(self)@.inserted(CachedSprite { sprite, vertex_buffer, index_buffer }, key, final(self)@),
    {
        self.sprites.insert(CachedSprite { sprite, vertex_buffer, index_buffer })
    }

    /// The sprite at `key`, if there is one.
    pub fn sprite(&self, key: ArenaKey) -> (sprite: Option<&CachedSprite<G>>)
        ensures
            sprite == if self@.live.contains_key(key) {
                Some(&self@.live[key])
            } else {
                None
            },
    {
        self.sprites.get(key)
    }
}

} // verus!
