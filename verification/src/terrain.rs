//! Terrain generation: enumerates a rectangular grid of tiles in row-major
//! order, picking a random sprite for each cell and placing it on an
//! isometric lattice. The enumeration and placement arithmetic are
//! verified; only the random draw is trusted.

use vstd::prelude::*;

verus! {

/// Marker for a spawned terrain tile.
#[derive(Clone, Copy, PartialEq, Eq, Structural, Debug)]
pub struct Terrain {}

/// One cell of the terrain grid: its grid coordinates and the sprite
/// chosen for it.
#[derive(Clone, Copy, PartialEq, Eq, Structural, Debug)]
pub struct TerrainTile {
    pub x: i32,
    pub y: i32,
    pub tile_index: usize,
}

/// Relies on rand: a sample of `Uniform::new(0, 16)` from `thread_rng`
/// lies in the half-open range 0..16.
#[verifier::external_body]
fn sample_tile_index() -> (r: usize)
    ensures
        r < 16,
{
    rand::Rng::sample(&mut rand::thread_rng(), rand::distributions::Uniform::new(0, 16))
}

/// Walks the grid cells (0..=x) by (0..y) in row-major order, one cell per
/// call, handing each cell a random sprite.
#[derive(Clone, PartialEq, Eq, Debug)]
pub struct TerrainGenerator {
    pub x: i32,
    pub y: i32,
    pub internal_x: i32,
    pub internal_y: i32,
}

impl TerrainGenerator {
    /// A generator over the grid with the given extents, starting at the
    /// origin.
    pub fn new(x: i32, y: i32) -> (g: TerrainGenerator)
        ensures
            g.x == x,
            g.y == y,
            g.internal_x == 0,
            g.internal_y == 0,
    {
        TerrainGenerator { x, y, internal_x: 0, internal_y: 0 }
    }

    /// The next cell of the grid, or `None` once every row is done. Rows
    /// run 0..=x within a row index below y; after exhaustion the
    /// generator stays put and keeps answering `None`.
    pub fn next_tile(&mut self) -> (r: Option<TerrainTile>)
        requires
            old(self).internal_y <= old(self).y,
        ensures
            final(self).x == old(self).x,
            final(self).y == old(self).y,
            final(self).internal_y <= final(self).y,
            old(self).internal_y >= old(self).y ==> r is None && *final(self) == *old(self),
            old(self).internal_y < old(self).y ==> ({
                &&& r matches Some(t)
                &&& t.x == old(self).internal_x
                &&& t.y == old(self).internal_y
                &&& t.tile_index < 16
                &&& (old(self).internal_x >= old(self).x ==> final(self).internal_x == 0
                    && final(self).internal_y == old(self).internal_y + 1)
                &&& (old(self).internal_x < old(self).x ==> final(self).internal_x
                    == old(self).internal_x + 1 && final(self).internal_y == old(self).internal_y)
            }),
    {
        if self.internal_y >= self.y {
            return None;
        }

        let tile = TerrainTile {
            x: self.internal_x,
            y: self.internal_y,
            tile_index: sample_tile_index(),
        };

        if self.internal_x >= self.x {
            self.internal_x = 0;
            self.internal_y += 1;
        } else {
            self.internal_x += 1;
        }

        Some(tile)
    }
}

/// Where a grid cell sits on the isometric lattice, in world units at the
/// stock scale factor of 3: a cell maps to ((y - x) * 96, (x + y) * 48).
pub fn tile_translation(x: i32, y: i32) -> (r: (i32, i32))
    requires
        -10000 <= x <= 10000,
        -10000 <= y <= 10000,
    ensures
        r.0 == (y - x) * 96,
        r.1 == (x + y) * 48,
{
    ((y - x) * 96, (x + y) * 48)
}

} // verus!
