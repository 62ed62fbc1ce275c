//! The surface as the pointer sees it: from a point of contact to a place on
//! the panel.
//!
//! A panel faces outward, so its left edge lies at the positive end of its x
//! axis: the mapping negates the coordinate before it centres it. Texture
//! coordinates are whole millionths, places on the panel whole thousandths of
//! a point; both are rounded down.

use vstd::prelude::*;
use vstd::arithmetic::div_mod::{
    lemma_div_multiples_vanish_quotient,
    lemma_fundamental_div_mod,
    lemma_fundamental_div_mod_converse,
};
use crate::geometry::Point3;

verus! {

/// The physical size of a panel, in nanometres.
#[derive(Clone, Copy, Debug, PartialEq, Eq, Structural)]
pub struct SpatialEguiWindowPhysicalSize {
    pub width: u64,
    pub height: u64,
    pub depth: u64,
}

/// The size in pixels of the texture that a panel is drawn to.
#[derive(Clone, Copy, Debug, PartialEq, Eq, Structural)]
pub struct Resolution {
    pub x: u32,
    pub y: u32,
}

/// A texture coordinate, in millionths: the panel spans 0 to 1 000 000.
#[derive(Clone, Copy, Debug, PartialEq, Eq, Structural)]
pub struct Uv {
    pub u: i128,
    pub v: i128,
}

/// A place on the panel, in thousandths of a point.
#[derive(Clone, Copy, Debug, PartialEq, Eq, Structural)]
pub struct Pos2 {
    pub x: i128,
    pub y: i128,
}

/// What the mapping needs to know of a panel.
#[derive(Clone, Copy, Debug, PartialEq, Eq, Structural)]
pub struct WindowGeometry {
    pub size: SpatialEguiWindowPhysicalSize,
    pub resolution: Resolution,
    /// Pixels per point, in thousandths.
    pub pixels_per_point: u32,
}

/// Millionths in a whole texture coordinate.
pub const UV_ONE: i128 = 1_000_000;

/// The texture coordinate on one axis of a point `local` nanometres from the
/// centre of a panel `size` nanometres wide: a half less `local / size`.
pub open spec fn uv_axis(local: int, size: int) -> int {
    ((size - 2 * local) * UV_ONE) / (2 * size)
}

/// The place on one axis of the same point, on a texture `pixels` wide shown
/// at `scale` thousandths of a pixel per point: the texture coordinate times
/// the pixels, divided by the pixels per point.
pub open spec fn position_axis(local: int, size: int, pixels: int, scale: int) -> int {
    ((size - 2 * local) * pixels * UV_ONE) / (2 * size * scale)
}

impl WindowGeometry {
    /// A panel has an extent on both axes, and is shown at some scale.
    pub open spec fn wf(self) -> bool {
        self.size.width > 0 && self.size.height > 0 && self.pixels_per_point > 0
    }

    /// The texture coordinate of a point of contact.
    pub open spec fn uv_of(self, contact: Point3) -> Uv {
        Uv {
            u: uv_axis(contact.x as int, self.size.width as int) as i128,
            v: uv_axis(contact.y as int, self.size.height as int) as i128,
        }
    }

    /// The place on the panel of a point of contact.
    pub open spec fn position_of(self, contact: Point3) -> Pos2 {
        Pos2 {
            x: position_axis(
                contact.x as int,
                self.size.width as int,
                self.resolution.x as int,
                self.pixels_per_point as int,
            ) as i128,
            y: position_axis(
                contact.y as int,
                self.size.height as int,
                self.resolution.y as int,
                self.pixels_per_point as int,
            ) as i128,
        }
    }

    /// Makes the geometry of a panel, unless the panel has no extent or no
    /// scale.
    pub fn new(
        size: SpatialEguiWindowPhysicalSize,
        resolution: Resolution,
        pixels_per_point: u32,
    ) -> (made: Option<WindowGeometry>)
        ensures
            made is Some <==> size.width > 0 && size.height > 0 && pixels_per_point > 0,
            made matches Some(geometry) ==> geometry.wf() && geometry.size == size
                && geometry.resolution == resolution && geometry.pixels_per_point
                == pixels_per_point,
    {
        if size.width > 0 && size.height > 0 && pixels_per_point > 0 {
            Some(WindowGeometry { size, resolution, pixels_per_point })
        } else {
            None
        }
    }

    /// Maps a point of contact to its texture coordinate.
    pub fn contact_uv(&self, contact: Point3) -> (uv: Uv)
        requires
            self.wf(),
        ensures
            uv == self.uv_of(contact),
            uv.u == uv_axis(contact.x as int, self.size.width as int),
            uv.v == uv_axis(contact.y as int, self.size.height as int),
    {
        let u: i128 = map_axis(contact.x, self.size.width, 1, 1);
        let v: i128 = map_axis(contact.y, self.size.height, 1, 1);
        proof {
            lemma_uv_is_position_at_unit_scale(contact.x as int, self.size.width as int);
            lemma_uv_is_position_at_unit_scale(contact.y as int, self.size.height as int);
        }
        Uv { u, v }
    }

    /// Maps a point of contact to its place on the panel.
    pub fn contact_position(&self, contact: Point3) -> (pos: Pos2)
        requires
            self.wf(),
        ensures
            pos == self.position_of(contact),
            pos.x == position_axis(
                contact.x as int,
                self.size.width as int,
                self.resolution.x as int,
                self.pixels_per_point as int,
            ),
            pos.y == position_axis(
                contact.y as int,
                self.size.height as int,
                self.resolution.y as int,
                self.pixels_per_point as int,
            ),
    {
        let x: i128 = map_axis(
            contact.x,
            self.size.width,
            self.resolution.x,
            self.pixels_per_point,
        );
        let y: i128 = map_axis(
            contact.y,
            self.size.height,
            self.resolution.y,
            self.pixels_per_point,
        );
        Pos2 { x, y }
    }
}

/// A texture coordinate is the place on a texture one pixel wide, at one
/// pixel per point.
proof fn lemma_uv_is_position_at_unit_scale(local: int, size: int)
    ensures
        position_axis(local, size, 1, 1) == uv_axis(local, size),
{
    assert((size - 2 * local) * 1 * UV_ONE == (size - 2 * local) * UV_ONE) by (nonlinear_arith);
    assert(2 * size * 1 == 2 * size);
}

/// Divides rounding down, whatever the sign of the dividend.
pub fn floor_div(dividend: i128, divisor: i128) -> (quotient: i128)
    requires
        divisor > 0,
        dividend > i128::MIN,
    ensures
        quotient == dividend / divisor,
{
    if dividend >= 0 {
        dividend / divisor
    } else {
        let below: i128 = -dividend - 1;
        let steps: i128 = below / divisor;
        proof {
            let rest = below as int % divisor as int;
            lemma_fundamental_div_mod(below as int, divisor as int);
            assert(dividend as int == (-(steps as int) - 1) * divisor as int + (divisor as int
                - rest - 1)) by (nonlinear_arith)
                requires
                    below as int == divisor as int * steps as int + rest,
                    below as int == -(dividend as int) - 1,
            ;
            lemma_fundamental_div_mod_converse(
                dividend as int,
                divisor as int,
                -(steps as int) - 1,
                divisor as int - rest - 1,
            );
        }
        -steps - 1
    }
}

/// Maps one coordinate of a point of contact.
fn map_axis(local: i64, size: u64, pixels: u32, scale: u32) -> (pos: i128)
    requires
        size > 0,
        scale > 0,
    ensures
        pos == position_axis(local as int, size as int, pixels as int, scale as int),
{
    let span: i128 = size as i128 - 2 * (local as i128);
    let weight: i128 = pixels as i128 * UV_ONE;
    let doubled: i128 = 2 * (size as i128);
    proof {
        assert(-0x2_0000_0000_0000_0000 * 0x10_0000_0000_0000 <= span * weight
            <= 0x2_0000_0000_0000_0000 * 0x10_0000_0000_0000) by (nonlinear_arith)
            requires
                -0x2_0000_0000_0000_0000 <= span <= 0x2_0000_0000_0000_0000,
                0 <= weight <= 0x10_0000_0000_0000,
        ;
        assert(0 < doubled * scale <= 0x2_0000_0000_0000_0000 * 0x1_0000_0000)
            by (nonlinear_arith)
            requires
                0 < doubled <= 0x2_0000_0000_0000_0000,
                0 < scale <= 0x1_0000_0000,
        ;
        assert((size - 2 * local) * pixels * UV_ONE == span * weight) by (nonlinear_arith)
            requires
                span == size - 2 * local,
                weight == pixels * UV_ONE,
        ;
    }
    floor_div(span * weight, doubled * (scale as i128))
}

/// A point of contact at the centre of the panel maps to the middle of the
/// texture, and to half the resolution divided by the pixels per point.
pub proof fn lemma_center_maps_to_middle(geometry: WindowGeometry, contact: Point3)
    requires
        geometry.wf(),
        contact.x == 0,
        contact.y == 0,
    ensures
        geometry.uv_of(contact) == (Uv { u: 500_000, v: 500_000 }),
        geometry.position_of(contact).x == (geometry.resolution.x * UV_ONE) / (2
            * geometry.pixels_per_point),
        geometry.position_of(contact).y == (geometry.resolution.y * UV_ONE) / (2
            * geometry.pixels_per_point),
{
    lemma_center_axis(
        geometry.size.width as int,
        geometry.resolution.x as int,
        geometry.pixels_per_point as int,
    );
    lemma_center_axis(
        geometry.size.height as int,
        geometry.resolution.y as int,
        geometry.pixels_per_point as int,
    );
    lemma_center_axis(geometry.size.width as int, 1, 1);
    lemma_center_axis(geometry.size.height as int, 1, 1);
    lemma_uv_is_position_at_unit_scale(0, geometry.size.width as int);
    lemma_uv_is_position_at_unit_scale(0, geometry.size.height as int);
}

/// On one axis, the centre maps to half the pixels over the scale, whatever
/// the size of the panel.
proof fn lemma_center_axis(size: int, pixels: int, scale: int)
    requires
        size > 0,
        pixels >= 0,
        scale > 0,
    ensures
        position_axis(0, size, pixels, scale) == (pixels * UV_ONE) / (2 * scale),
{
    lemma_div_multiples_vanish_quotient(size, pixels * UV_ONE, 2 * scale);
    assert((size - 2 * 0) * pixels * UV_ONE == size * (pixels * UV_ONE)) by (nonlinear_arith);
    assert(2 * size * scale == size * (2 * scale)) by (nonlinear_arith);
}

} // verus!
