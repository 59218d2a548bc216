//! Small fixed-size vectors and extents.

use vstd::prelude::*;

verus! {

/// A vector of two components.
#[derive(Copy, Clone, Debug, Default, PartialEq, Eq)]
pub struct Vec2<T> {
    pub x: T,
    pub y: T,
}

/// A vector of three components.
#[derive(Copy, Clone, Debug, Default, PartialEq, Eq)]
pub struct Vec3<T> {
    pub x: T,
    pub y: T,
    pub z: T,
}

/// A vector of four components.
#[derive(Copy, Clone, Debug, Default, PartialEq, Eq)]
pub struct Vec4<T> {
    pub x: T,
    pub y: T,
    pub z: T,
    pub w: T,
}

/// A width and a height of one kind: a size in pixels, a pair of ratios.
#[derive(Copy, Clone, Debug, Default, PartialEq, Eq)]
pub struct Ext2<T> {
    pub w: T,
    pub h: T,
}

/// The 32 bits of a single-precision number, as the GPU program reads them.
///
/// The library never computes with such a number: it places the bits in a
/// record and leaves the arithmetic to its caller.
#[derive(Copy, Clone, Debug, Default, PartialEq, Eq)]
pub struct Scalar(pub u32);

pub type Ext2u = Ext2<u32>;

pub type Vec2i = Vec2<i32>;

pub type Vec3i = Vec3<i32>;

pub type Vec3s = Vec3<Scalar>;

pub type Ext2s = Ext2<Scalar>;

impl<T> Vec2<T> {
    pub fn new(x: T, y: T) -> (r: Self)
        ensures
            r.x == x,
            r.y == y,
    {
        Self { x, y }
    }
}

impl<T> Vec3<T> {
    pub fn new(x: T, y: T, z: T) -> (r: Self)
        ensures
            r.x == x,
            r.y == y,
            r.z == z,
    {
        Self { x, y, z }
    }
}

impl<T> Vec4<T> {
    pub fn new(x: T, y: T, z: T, w: T) -> (r: Self)
        ensures
            r.x == x,
            r.y == y,
            r.z == z,
            r.w == w,
    {
        Self { x, y, z, w }
    }
}

impl<T> Ext2<T> {
    pub fn new(w: T, h: T) -> (r: Self)
        ensures
            r.w == w,
            r.h == h,
    {
        Self { w, h }
    }
}

impl Ext2<u32> {
    /// The shorter of the two sides.
    pub open spec fn spec_shorter_side(self) -> u32 {
        if self.w <= self.h {
            self.w
        } else {
            self.h
        }
    }

    /// The shorter side: the unit by which both sides are divided to get the
    /// projection's half-extents, so that the shorter one becomes 1.
    pub fn shorter_side(&self) -> (r: u32)
        ensures
            r == self.spec_shorter_side(),
            r <= self.w,
            r <= self.h,
    {
        if self.w <= self.h {
            self.w
        } else {
            self.h
        }
    }
}

impl Vec2<i32> {
    /// The squared Euclidean length.
    pub open spec fn spec_length2(self) -> int {
        self.x * self.x + self.y * self.y
    }

    /// The squared Euclidean length. It is 0 for the zero vector only.
    pub fn length2(&self) -> (r: u64)
        ensures
            r == self.spec_length2(),
    {
        let x: i64 = self.x as i64;
        let y: i64 = self.y as i64;
        assert(0 <= x * x <= 0x4000_0000_0000_0000) by (nonlinear_arith)
            requires
                -0x8000_0000 <= x <= 0x7fff_ffff,
        ;
        assert(0 <= y * y <= 0x4000_0000_0000_0000) by (nonlinear_arith)
            requires
                -0x8000_0000 <= y <= 0x7fff_ffff,
        ;
        let xx: u64 = (x * x) as u64;
        let yy: u64 = (y * y) as u64;
        xx + yy
    }
}

impl Vec3<i32> {
    /// The squared Euclidean length.
    pub open spec fn spec_length2(self) -> int {
        self.x * self.x + self.y * self.y + self.z * self.z
    }

    /// The squared Euclidean length. It is 0 for the zero vector only.
    pub fn length2(&self) -> (r: u64)
        ensures
            r == self.spec_length2(),
    {
        let x: i64 = self.x as i64;
        let y: i64 = self.y as i64;
        let z: i64 = self.z as i64;
        assert(0 <= x * x <= 0x4000_0000_0000_0000) by (nonlinear_arith)
            requires
                -0x8000_0000 <= x <= 0x7fff_ffff,
        ;
        assert(0 <= y * y <= 0x4000_0000_0000_0000) by (nonlinear_arith)
            requires
                -0x8000_0000 <= y <= 0x7fff_ffff,
        ;
        assert(0 <= z * z <= 0x4000_0000_0000_0000) by (nonlinear_arith)
            requires
                -0x8000_0000 <= z <= 0x7fff_ffff,
        ;
        let xx: u64 = (x * x) as u64;
        let yy: u64 = (y * y) as u64;
        let zz: u64 = (z * z) as u64;
        xx + yy + zz
    }
}

} // verus!
