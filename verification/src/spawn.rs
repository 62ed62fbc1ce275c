//! The request to spawn a panel, and what follows from it before anything is
//! spawned: how large the panel is, and how many bytes its texture takes.

use vstd::prelude::*;
use crate::geometry::Point3;
use crate::surface::{Resolution, SpatialEguiWindowPhysicalSize};

verus! {

/// A rotation as a quaternion, each part in billionths.
#[derive(Clone, Copy, Debug, PartialEq, Eq, Structural)]
pub struct Rotation {
    pub x: i64,
    pub y: i64,
    pub z: i64,
    pub w: i64,
}

/// A request to spawn a panel.
#[derive(Clone, Copy, Debug, PartialEq, Eq, Structural)]
pub struct SpawnSpatialEguiWindowCommand {
    /// The 64 bits of the entity that becomes the panel; a new entity is
    /// spawned where there is none.
    pub target_entity: Option<u64>,
    /// In nanometres.
    pub position: Point3,
    pub rotation: Rotation,
    pub resolution: Resolution,
    pub unlit: bool,
    /// In nanometres.
    pub height: u64,
}

/// The depth of every panel, in nanometres.
pub const WINDOW_DEPTH: u64 = 50_000_000;

/// The bytes that one pixel of the texture takes.
pub const BYTES_PER_PIXEL: u32 = 4;

impl SpawnSpatialEguiWindowCommand {
    /// The width of the panel: its height times the resolution's `y` over its
    /// `x`, rounded down.
    pub open spec fn width(self) -> int {
        (self.height * self.resolution.y) / (self.resolution.x as int)
    }

    /// The bytes of the texture: one pixel's bytes for each pixel.
    pub open spec fn texture_bytes(self) -> int {
        self.resolution.x * self.resolution.y * BYTES_PER_PIXEL
    }

    /// Works out the physical size of the panel. There is none where the
    /// resolution has no width, nor where the panel's width would not fit in
    /// 64 bits.
    pub fn physical_size(&self) -> (size: Option<SpatialEguiWindowPhysicalSize>)
        ensures
            size is Some <==> self.resolution.x > 0 && self.width() <= u64::MAX,
            size matches Some(size) ==> size.width == self.width() && size.height == self.height
                && size.depth == WINDOW_DEPTH,
    {
        if self.resolution.x == 0 {
            return None;
        }
        assert(self.height * self.resolution.y <= 0xffff_ffff_ffff_ffff * 0xffff_ffff)
            by (nonlinear_arith)
            requires
                0 <= self.height <= 0xffff_ffff_ffff_ffff,
                0 <= self.resolution.y <= 0xffff_ffff,
        ;
        let scaled: u128 = self.height as u128 * self.resolution.y as u128;
        let width: u128 = scaled / self.resolution.x as u128;
        if width > u64::MAX as u128 {
            return None;
        }
        Some(
            SpatialEguiWindowPhysicalSize {
                width: width as u64,
                height: self.height,
                depth: WINDOW_DEPTH,
            },
        )
    }

    /// Works out how many bytes the texture takes. There is no answer where
    /// the number does not fit in 32 bits.
    pub fn texture_len(&self) -> (len: Option<usize>)
        ensures
            len is Some <==> self.texture_bytes() <= u32::MAX,
            len matches Some(len) ==> len == self.texture_bytes(),
    {
        assert(self.resolution.x * self.resolution.y <= 0xffff_ffff * 0xffff_ffff)
            by (nonlinear_arith)
            requires
                0 <= self.resolution.x <= 0xffff_ffff,
                0 <= self.resolution.y <= 0xffff_ffff,
        ;
        let pixels: u64 = self.resolution.x as u64 * self.resolution.y as u64;
        if pixels > (u32::MAX / BYTES_PER_PIXEL) as u64 {
            return None;
        }
        Some((pixels * BYTES_PER_PIXEL as u64) as usize)
    }
}

} // verus!
