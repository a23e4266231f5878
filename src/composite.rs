//! Composite numeric types whose fast operations work field by field.
use vstd::prelude::*;
use crate::dispatch::UnsafeMath;

verus! {

/// A two-component coordinate vector.
#[derive(Clone, Copy, Debug, PartialEq, Eq)]
pub struct Vector2<T> {
    pub x: T,
    pub y: T,
}

impl<T: UnsafeMath> UnsafeMath for Vector2<T> {
    open spec fn fast_add_spec(self, rhs: Self) -> Self {
        Vector2 { x: self.x.fast_add_spec(rhs.x), y: self.y.fast_add_spec(rhs.y) }
    }

    open spec fn fast_sub_spec(self, rhs: Self) -> Self {
        Vector2 { x: self.x.fast_sub_spec(rhs.x), y: self.y.fast_sub_spec(rhs.y) }
    }

    open spec fn fast_mul_spec(self, rhs: Self) -> Self {
        Vector2 { x: self.x.fast_mul_spec(rhs.x), y: self.y.fast_mul_spec(rhs.y) }
    }

    open spec fn fast_div_spec(self, rhs: Self) -> Self {
        Vector2 { x: self.x.fast_div_spec(rhs.x), y: self.y.fast_div_spec(rhs.y) }
    }

    open spec fn fast_rem_spec(self, rhs: Self) -> Self {
        Vector2 { x: self.x.fast_rem_spec(rhs.x), y: self.y.fast_rem_spec(rhs.y) }
    }

    open spec fn fast_shl_spec(self, amount: u32) -> Self {
        Vector2 { x: self.x.fast_shl_spec(amount), y: self.y.fast_shl_spec(amount) }
    }

    open spec fn fast_shr_spec(self, amount: u32) -> Self {
        Vector2 { x: self.x.fast_shr_spec(amount), y: self.y.fast_shr_spec(amount) }
    }

    open spec fn div_defined(self, rhs: Self) -> bool {
        self.x.div_defined(rhs.x) && self.y.div_defined(rhs.y)
    }

    open spec fn shift_defined(amount: u32) -> bool {
        T::shift_defined(amount)
    }

    fn fast_add(self, rhs: Self) -> (r: Self) {
        Vector2 { x: self.x.fast_add(rhs.x), y: self.y.fast_add(rhs.y) }
    }

    fn fast_sub(self, rhs: Self) -> (r: Self) {
        Vector2 { x: self.x.fast_sub(rhs.x), y: self.y.fast_sub(rhs.y) }
    }

    fn fast_mul(self, rhs: Self) -> (r: Self) {
        Vector2 { x: self.x.fast_mul(rhs.x), y: self.y.fast_mul(rhs.y) }
    }

    fn fast_div(self, rhs: Self) -> (r: Self) {
        Vector2 { x: self.x.fast_div(rhs.x), y: self.y.fast_div(rhs.y) }
    }

    fn fast_rem(self, rhs: Self) -> (r: Self) {
        Vector2 { x: self.x.fast_rem(rhs.x), y: self.y.fast_rem(rhs.y) }
    }

    fn fast_shl(self, rhs: u32) -> (r: Self) {
        Vector2 { x: self.x.fast_shl(rhs), y: self.y.fast_shl(rhs) }
    }

    fn fast_shr(self, rhs: u32) -> (r: Self) {
        Vector2 { x: self.x.fast_shr(rhs), y: self.y.fast_shr(rhs) }
    }
}

/// A three-component coordinate vector.
#[derive(Clone, Copy, Debug, PartialEq, Eq)]
pub struct Vector3<T> {
    pub x: T,
    pub y: T,
    pub z: T,
}

impl<T: UnsafeMath> UnsafeMath for Vector3<T> {
    open spec fn fast_add_spec(self, rhs: Self) -> Self {
        Vector3 { x: self.x.fast_add_spec(rhs.x), y: self.y.fast_add_spec(rhs.y), z: self.z.fast_add_spec(rhs.z) }
    }

    open spec fn fast_sub_spec(self, rhs: Self) -> Self {
        Vector3 { x: self.x.fast_sub_spec(rhs.x), y: self.y.fast_sub_spec(rhs.y), z: self.z.fast_sub_spec(rhs.z) }
    }

    open spec fn fast_mul_spec(self, rhs: Self) -> Self {
        Vector3 { x: self.x.fast_mul_spec(rhs.x), y: self.y.fast_mul_spec(rhs.y), z: self.z.fast_mul_spec(rhs.z) }
    }

    open spec fn fast_div_spec(self, rhs: Self) -> Self {
        Vector3 { x: self.x.fast_div_spec(rhs.x), y: self.y.fast_div_spec(rhs.y), z: self.z.fast_div_spec(rhs.z) }
    }

    open spec fn fast_rem_spec(self, rhs: Self) -> Self {
        Vector3 { x: self.x.fast_rem_spec(rhs.x), y: self.y.fast_rem_spec(rhs.y), z: self.z.fast_rem_spec(rhs.z) }
    }

    open spec fn fast_shl_spec(self, amount: u32) -> Self {
        Vector3 { x: self.x.fast_shl_spec(amount), y: self.y.fast_shl_spec(amount), z: self.z.fast_shl_spec(amount) }
    }

    open spec fn fast_shr_spec(self, amount: u32) -> Self {
        Vector3 { x: self.x.fast_shr_spec(amount), y: self.y.fast_shr_spec(amount), z: self.z.fast_shr_spec(amount) }
    }

    open spec fn div_defined(self, rhs: Self) -> bool {
        self.x.div_defined(rhs.x) && self.y.div_defined(rhs.y) && self.z.div_defined(rhs.z)
    }

    open spec fn shift_defined(amount: u32) -> bool {
        T::shift_defined(amount)
    }

    fn fast_add(self, rhs: Self) -> (r: Self) {
        Vector3 { x: self.x.fast_add(rhs.x), y: self.y.fast_add(rhs.y), z: self.z.fast_add(rhs.z) }
    }

    fn fast_sub(self, rhs: Self) -> (r: Self) {
        Vector3 { x: self.x.fast_sub(rhs.x), y: self.y.fast_sub(rhs.y), z: self.z.fast_sub(rhs.z) }
    }

    fn fast_mul(self, rhs: Self) -> (r: Self) {
        Vector3 { x: self.x.fast_mul(rhs.x), y: self.y.fast_mul(rhs.y), z: self.z.fast_mul(rhs.z) }
    }

    fn fast_div(self, rhs: Self) -> (r: Self) {
        Vector3 { x: self.x.fast_div(rhs.x), y: self.y.fast_div(rhs.y), z: self.z.fast_div(rhs.z) }
    }

    fn fast_rem(self, rhs: Self) -> (r: Self) {
        Vector3 { x: self.x.fast_rem(rhs.x), y: self.y.fast_rem(rhs.y), z: self.z.fast_rem(rhs.z) }
    }

    fn fast_shl(self, rhs: u32) -> (r: Self) {
        Vector3 { x: self.x.fast_shl(rhs), y: self.y.fast_shl(rhs), z: self.z.fast_shl(rhs) }
    }

    fn fast_shr(self, rhs: u32) -> (r: Self) {
        Vector3 { x: self.x.fast_shr(rhs), y: self.y.fast_shr(rhs), z: self.z.fast_shr(rhs) }
    }
}

/// A four-component coordinate vector.
#[derive(Clone, Copy, Debug, PartialEq, Eq)]
pub struct Vector4<T> {
    pub x: T,
    pub y: T,
    pub z: T,
    pub w: T,
}

impl<T: UnsafeMath> UnsafeMath for Vector4<T> {
    open spec fn fast_add_spec(self, rhs: Self) -> Self {
        Vector4 { x: self.x.fast_add_spec(rhs.x), y: self.y.fast_add_spec(rhs.y), z: self.z.fast_add_spec(rhs.z), w: self.w.fast_add_spec(rhs.w) }
    }

    open spec fn fast_sub_spec(self, rhs: Self) -> Self {
        Vector4 { x: self.x.fast_sub_spec(rhs.x), y: self.y.fast_sub_spec(rhs.y), z: self.z.fast_sub_spec(rhs.z), w: self.w.fast_sub_spec(rhs.w) }
    }

    open spec fn fast_mul_spec(self, rhs: Self) -> Self {
        Vector4 { x: self.x.fast_mul_spec(rhs.x), y: self.y.fast_mul_spec(rhs.y), z: self.z.fast_mul_spec(rhs.z), w: self.w.fast_mul_spec(rhs.w) }
    }

    open spec fn fast_div_spec(self, rhs: Self) -> Self {
        Vector4 { x: self.x.fast_div_spec(rhs.x), y: self.y.fast_div_spec(rhs.y), z: self.z.fast_div_spec(rhs.z), w: self.w.fast_div_spec(rhs.w) }
    }

    open spec fn fast_rem_spec(self, rhs: Self) -> Self {
        Vector4 { x: self.x.fast_rem_spec(rhs.x), y: self.y.fast_rem_spec(rhs.y), z: self.z.fast_rem_spec(rhs.z), w: self.w.fast_rem_spec(rhs.w) }
    }

    open spec fn fast_shl_spec(self, amount: u32) -> Self {
        Vector4 { x: self.x.fast_shl_spec(amount), y: self.y.fast_shl_spec(amount), z: self.z.fast_shl_spec(amount), w: self.w.fast_shl_spec(amount) }
    }

    open spec fn fast_shr_spec(self, amount: u32) -> Self {
        Vector4 { x: self.x.fast_shr_spec(amount), y: self.y.fast_shr_spec(amount), z: self.z.fast_shr_spec(amount), w: self.w.fast_shr_spec(amount) }
    }

    open spec fn div_defined(self, rhs: Self) -> bool {
        self.x.div_defined(rhs.x) && self.y.div_defined(rhs.y) && self.z.div_defined(rhs.z) && self.w.div_defined(rhs.w)
    }

    open spec fn shift_defined(amount: u32) -> bool {
        T::shift_defined(amount)
    }

    fn fast_add(self, rhs: Self) -> (r: Self) {
        Vector4 { x: self.x.fast_add(rhs.x), y: self.y.fast_add(rhs.y), z: self.z.fast_add(rhs.z), w: self.w.fast_add(rhs.w) }
    }

    fn fast_sub(self, rhs: Self) -> (r: Self) {
        Vector4 { x: self.x.fast_sub(rhs.x), y: self.y.fast_sub(rhs.y), z: self.z.fast_sub(rhs.z), w: self.w.fast_sub(rhs.w) }
    }

    fn fast_mul(self, rhs: Self) -> (r: Self) {
        Vector4 { x: self.x.fast_mul(rhs.x), y: self.y.fast_mul(rhs.y), z: self.z.fast_mul(rhs.z), w: self.w.fast_mul(rhs.w) }
    }

    fn fast_div(self, rhs: Self) -> (r: Self) {
        Vector4 { x: self.x.fast_div(rhs.x), y: self.y.fast_div(rhs.y), z: self.z.fast_div(rhs.z), w: self.w.fast_div(rhs.w) }
    }

    fn fast_rem(self, rhs: Self) -> (r: Self) {
        Vector4 { x: self.x.fast_rem(rhs.x), y: self.y.fast_rem(rhs.y), z: self.z.fast_rem(rhs.z), w: self.w.fast_rem(rhs.w) }
    }

    fn fast_shl(self, rhs: u32) -> (r: Self) {
        Vector4 { x: self.x.fast_shl(rhs), y: self.y.fast_shl(rhs), z: self.z.fast_shl(rhs), w: self.w.fast_shl(rhs) }
    }

    fn fast_shr(self, rhs: u32) -> (r: Self) {
        Vector4 { x: self.x.fast_shr(rhs), y: self.y.fast_shr(rhs), z: self.z.fast_shr(rhs), w: self.w.fast_shr(rhs) }
    }
}

/// A three-channel colour.
#[derive(Clone, Copy, Debug, PartialEq, Eq)]
pub struct Rgb<T> {
    pub r: T,
    pub g: T,
    pub b: T,
}

impl<T: UnsafeMath> UnsafeMath for Rgb<T> {
    open spec fn fast_add_spec(self, rhs: Self) -> Self {
        Rgb { r: self.r.fast_add_spec(rhs.r), g: self.g.fast_add_spec(rhs.g), b: self.b.fast_add_spec(rhs.b) }
    }

    open spec fn fast_sub_spec(self, rhs: Self) -> Self {
        Rgb { r: self.r.fast_sub_spec(rhs.r), g: self.g.fast_sub_spec(rhs.g), b: self.b.fast_sub_spec(rhs.b) }
    }

    open spec fn fast_mul_spec(self, rhs: Self) -> Self {
        Rgb { r: self.r.fast_mul_spec(rhs.r), g: self.g.fast_mul_spec(rhs.g), b: self.b.fast_mul_spec(rhs.b) }
    }

    open spec fn fast_div_spec(self, rhs: Self) -> Self {
        Rgb { r: self.r.fast_div_spec(rhs.r), g: self.g.fast_div_spec(rhs.g), b: self.b.fast_div_spec(rhs.b) }
    }

    open spec fn fast_rem_spec(self, rhs: Self) -> Self {
        Rgb { r: self.r.fast_rem_spec(rhs.r), g: self.g.fast_rem_spec(rhs.g), b: self.b.fast_rem_spec(rhs.b) }
    }

    open spec fn fast_shl_spec(self, amount: u32) -> Self {
        Rgb { r: self.r.fast_shl_spec(amount), g: self.g.fast_shl_spec(amount), b: self.b.fast_shl_spec(amount) }
    }

    open spec fn fast_shr_spec(self, amount: u32) -> Self {
        Rgb { r: self.r.fast_shr_spec(amount), g: self.g.fast_shr_spec(amount), b: self.b.fast_shr_spec(amount) }
    }

    open spec fn div_defined(self, rhs: Self) -> bool {
        self.r.div_defined(rhs.r) && self.g.div_defined(rhs.g) && self.b.div_defined(rhs.b)
    }

    open spec fn shift_defined(amount: u32) -> bool {
        T::shift_defined(amount)
    }

    fn fast_add(self, rhs: Self) -> (r: Self) {
        Rgb { r: self.r.fast_add(rhs.r), g: self.g.fast_add(rhs.g), b: self.b.fast_add(rhs.b) }
    }

    fn fast_sub(self, rhs: Self) -> (r: Self) {
        Rgb { r: self.r.fast_sub(rhs.r), g: self.g.fast_sub(rhs.g), b: self.b.fast_sub(rhs.b) }
    }

    fn fast_mul(self, rhs: Self) -> (r: Self) {
        Rgb { r: self.r.fast_mul(rhs.r), g: self.g.fast_mul(rhs.g), b: self.b.fast_mul(rhs.b) }
    }

    fn fast_div(self, rhs: Self) -> (r: Self) {
        Rgb { r: self.r.fast_div(rhs.r), g: self.g.fast_div(rhs.g), b: self.b.fast_div(rhs.b) }
    }

    fn fast_rem(self, rhs: Self) -> (r: Self) {
        Rgb { r: self.r.fast_rem(rhs.r), g: self.g.fast_rem(rhs.g), b: self.b.fast_rem(rhs.b) }
    }

    fn fast_shl(self, rhs: u32) -> (r: Self) {
        Rgb { r: self.r.fast_shl(rhs), g: self.g.fast_shl(rhs), b: self.b.fast_shl(rhs) }
    }

    fn fast_shr(self, rhs: u32) -> (r: Self) {
        Rgb { r: self.r.fast_shr(rhs), g: self.g.fast_shr(rhs), b: self.b.fast_shr(rhs) }
    }
}

/// A four-channel colour.
#[derive(Clone, Copy, Debug, PartialEq, Eq)]
pub struct Rgba<T> {
    pub r: T,
    pub g: T,
    pub b: T,
    pub a: T,
}

impl<T: UnsafeMath> UnsafeMath for Rgba<T> {
    open spec fn fast_add_spec(self, rhs: Self) -> Self {
        Rgba { r: self.r.fast_add_spec(rhs.r), g: self.g.fast_add_spec(rhs.g), b: self.b.fast_add_spec(rhs.b), a: self.a.fast_add_spec(rhs.a) }
    }

    open spec fn fast_sub_spec(self, rhs: Self) -> Self {
        Rgba { r: self.r.fast_sub_spec(rhs.r), g: self.g.fast_sub_spec(rhs.g), b: self.b.fast_sub_spec(rhs.b), a: self.a.fast_sub_spec(rhs.a) }
    }

    open spec fn fast_mul_spec(self, rhs: Self) -> Self {
        Rgba { r: self.r.fast_mul_spec(rhs.r), g: self.g.fast_mul_spec(rhs.g), b: self.b.fast_mul_spec(rhs.b), a: self.a.fast_mul_spec(rhs.a) }
    }

    open spec fn fast_div_spec(self, rhs: Self) -> Self {
        Rgba { r: self.r.fast_div_spec(rhs.r), g: self.g.fast_div_spec(rhs.g), b: self.b.fast_div_spec(rhs.b), a: self.a.fast_div_spec(rhs.a) }
    }

    open spec fn fast_rem_spec(self, rhs: Self) -> Self {
        Rgba { r: self.r.fast_rem_spec(rhs.r), g: self.g.fast_rem_spec(rhs.g), b: self.b.fast_rem_spec(rhs.b), a: self.a.fast_rem_spec(rhs.a) }
    }

    open spec fn fast_shl_spec(self, amount: u32) -> Self {
        Rgba { r: self.r.fast_shl_spec(amount), g: self.g.fast_shl_spec(amount), b: self.b.fast_shl_spec(amount), a: self.a.fast_shl_spec(amount) }
    }

    open spec fn fast_shr_spec(self, amount: u32) -> Self {
        Rgba { r: self.r.fast_shr_spec(amount), g: self.g.fast_shr_spec(amount), b: self.b.fast_shr_spec(amount), a: self.a.fast_shr_spec(amount) }
    }

    open spec fn div_defined(self, rhs: Self) -> bool {
        self.r.div_defined(rhs.r) && self.g.div_defined(rhs.g) && self.b.div_defined(rhs.b) && self.a.div_defined(rhs.a)
    }

    open spec fn shift_defined(amount: u32) -> bool {
        T::shift_defined(amount)
    }

    fn fast_add(self, rhs: Self) -> (r: Self) {
        Rgba { r: self.r.fast_add(rhs.r), g: self.g.fast_add(rhs.g), b: self.b.fast_add(rhs.b), a: self.a.fast_add(rhs.a) }
    }

    fn fast_sub(self, rhs: Self) -> (r: Self) {
        Rgba { r: self.r.fast_sub(rhs.r), g: self.g.fast_sub(rhs.g), b: self.b.fast_sub(rhs.b), a: self.a.fast_sub(rhs.a) }
    }

    fn fast_mul(self, rhs: Self) -> (r: Self) {
        Rgba { r: self.r.fast_mul(rhs.r), g: self.g.fast_mul(rhs.g), b: self.b.fast_mul(rhs.b), a: self.a.fast_mul(rhs.a) }
    }

    fn fast_div(self, rhs: Self) -> (r: Self) {
        Rgba { r: self.r.fast_div(rhs.r), g: self.g.fast_div(rhs.g), b: self.b.fast_div(rhs.b), a: self.a.fast_div(rhs.a) }
    }

    fn fast_rem(self, rhs: Self) -> (r: Self) {
        Rgba { r: self.r.fast_rem(rhs.r), g: self.g.fast_rem(rhs.g), b: self.b.fast_rem(rhs.b), a: self.a.fast_rem(rhs.a) }
    }

    fn fast_shl(self, rhs: u32) -> (r: Self) {
        Rgba { r: self.r.fast_shl(rhs), g: self.g.fast_shl(rhs), b: self.b.fast_shl(rhs), a: self.a.fast_shl(rhs) }
    }

    fn fast_shr(self, rhs: u32) -> (r: Self) {
        Rgba { r: self.r.fast_shr(rhs), g: self.g.fast_shr(rhs), b: self.b.fast_shr(rhs), a: self.a.fast_shr(rhs) }
    }
}

/// A two-component extent.
#[derive(Clone, Copy, Debug, PartialEq, Eq)]
pub struct Extent2<T> {
    pub width: T,
    pub height: T,
}

impl<T: UnsafeMath> UnsafeMath for Extent2<T> {
    open spec fn fast_add_spec(self, rhs: Self) -> Self {
        Extent2 { width: self.width.fast_add_spec(rhs.width), height: self.height.fast_add_spec(rhs.height) }
    }

    open spec fn fast_sub_spec(self, rhs: Self) -> Self {
        Extent2 { width: self.width.fast_sub_spec(rhs.width), height: self.height.fast_sub_spec(rhs.height) }
    }

    open spec fn fast_mul_spec(self, rhs: Self) -> Self {
        Extent2 { width: self.width.fast_mul_spec(rhs.width), height: self.height.fast_mul_spec(rhs.height) }
    }

    open spec fn fast_div_spec(self, rhs: Self) -> Self {
        Extent2 { width: self.width.fast_div_spec(rhs.width), height: self.height.fast_div_spec(rhs.height) }
    }

    open spec fn fast_rem_spec(self, rhs: Self) -> Self {
        Extent2 { width: self.width.fast_rem_spec(rhs.width), height: self.height.fast_rem_spec(rhs.height) }
    }

    open spec fn fast_shl_spec(self, amount: u32) -> Self {
        Extent2 { width: self.width.fast_shl_spec(amount), height: self.height.fast_shl_spec(amount) }
    }

    open spec fn fast_shr_spec(self, amount: u32) -> Self {
        Extent2 { width: self.width.fast_shr_spec(amount), height: self.height.fast_shr_spec(amount) }
    }

    open spec fn div_defined(self, rhs: Self) -> bool {
        self.width.div_defined(rhs.width) && self.height.div_defined(rhs.height)
    }

    open spec fn shift_defined(amount: u32) -> bool {
        T::shift_defined(amount)
    }

    fn fast_add(self, rhs: Self) -> (r: Self) {
        Extent2 { width: self.width.fast_add(rhs.width), height: self.height.fast_add(rhs.height) }
    }

    fn fast_sub(self, rhs: Self) -> (r: Self) {
        Extent2 { width: self.width.fast_sub(rhs.width), height: self.height.fast_sub(rhs.height) }
    }

    fn fast_mul(self, rhs: Self) -> (r: Self) {
        Extent2 { width: self.width.fast_mul(rhs.width), height: self.height.fast_mul(rhs.height) }
    }

    fn fast_div(self, rhs: Self) -> (r: Self) {
        Extent2 { width: self.width.fast_div(rhs.width), height: self.height.fast_div(rhs.height) }
    }

    fn fast_rem(self, rhs: Self) -> (r: Self) {
        Extent2 { width: self.width.fast_rem(rhs.width), height: self.height.fast_rem(rhs.height) }
    }

    fn fast_shl(self, rhs: u32) -> (r: Self) {
        Extent2 { width: self.width.fast_shl(rhs), height: self.height.fast_shl(rhs) }
    }

    fn fast_shr(self, rhs: u32) -> (r: Self) {
        Extent2 { width: self.width.fast_shr(rhs), height: self.height.fast_shr(rhs) }
    }
}

/// A three-component extent.
#[derive(Clone, Copy, Debug, PartialEq, Eq)]
pub struct Extent3<T> {
    pub width: T,
    pub height: T,
    pub depth: T,
}

impl<T: UnsafeMath> UnsafeMath for Extent3<T> {
    open spec fn fast_add_spec(self, rhs: Self) -> Self {
        Extent3 { width: self.width.fast_add_spec(rhs.width), height: self.height.fast_add_spec(rhs.height), depth: self.depth.fast_add_spec(rhs.depth) }
    }

    open spec fn fast_sub_spec(self, rhs: Self) -> Self {
        Extent3 { width: self.width.fast_sub_spec(rhs.width), height: self.height.fast_sub_spec(rhs.height), depth: self.depth.fast_sub_spec(rhs.depth) }
    }

    open spec fn fast_mul_spec(self, rhs: Self) -> Self {
        Extent3 { width: self.width.fast_mul_spec(rhs.width), height: self.height.fast_mul_spec(rhs.height), depth: self.depth.fast_mul_spec(rhs.depth) }
    }

    open spec fn fast_div_spec(self, rhs: Self) -> Self {
        Extent3 { width: self.width.fast_div_spec(rhs.width), height: self.height.fast_div_spec(rhs.height), depth: self.depth.fast_div_spec(rhs.depth) }
    }

    open spec fn fast_rem_spec(self, rhs: Self) -> Self {
        Extent3 { width: self.width.fast_rem_spec(rhs.width), height: self.height.fast_rem_spec(rhs.height), depth: self.depth.fast_rem_spec(rhs.depth) }
    }

    open spec fn fast_shl_spec(self, amount: u32) -> Self {
        Extent3 { width: self.width.fast_shl_spec(amount), height: self.height.fast_shl_spec(amount), depth: self.depth.fast_shl_spec(amount) }
    }

    open spec fn fast_shr_spec(self, amount: u32) -> Self {
        Extent3 { width: self.width.fast_shr_spec(amount), height: self.height.fast_shr_spec(amount), depth: self.depth.fast_shr_spec(amount) }
    }

    open spec fn div_defined(self, rhs: Self) -> bool {
        self.width.div_defined(rhs.width) && self.height.div_defined(rhs.height) && self.depth.div_defined(rhs.depth)
    }

    open spec fn shift_defined(amount: u32) -> bool {
        T::shift_defined(amount)
    }

    fn fast_add(self, rhs: Self) -> (r: Self) {
        Extent3 { width: self.width.fast_add(rhs.width), height: self.height.fast_add(rhs.height), depth: self.depth.fast_add(rhs.depth) }
    }

    fn fast_sub(self, rhs: Self) -> (r: Self) {
        Extent3 { width: self.width.fast_sub(rhs.width), height: self.height.fast_sub(rhs.height), depth: self.depth.fast_sub(rhs.depth) }
    }

    fn fast_mul(self, rhs: Self) -> (r: Self) {
        Extent3 { width: self.width.fast_mul(rhs.width), height: self.height.fast_mul(rhs.height), depth: self.depth.fast_mul(rhs.depth) }
    }

    fn fast_div(self, rhs: Self) -> (r: Self) {
        Extent3 { width: self.width.fast_div(rhs.width), height: self.height.fast_div(rhs.height), depth: self.depth.fast_div(rhs.depth) }
    }

    fn fast_rem(self, rhs: Self) -> (r: Self) {
        Extent3 { width: self.width.fast_rem(rhs.width), height: self.height.fast_rem(rhs.height), depth: self.depth.fast_rem(rhs.depth) }
    }

    fn fast_shl(self, rhs: u32) -> (r: Self) {
        Extent3 { width: self.width.fast_shl(rhs), height: self.height.fast_shl(rhs), depth: self.depth.fast_shl(rhs) }
    }

    fn fast_shr(self, rhs: u32) -> (r: Self) {
        Extent3 { width: self.width.fast_shr(rhs), height: self.height.fast_shr(rhs), depth: self.depth.fast_shr(rhs) }
    }
}

} // verus!
