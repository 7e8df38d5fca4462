//! Two-dimensional positions and displacements.
//!
//! Positions are `bevy_math::Vec2` values. Their coordinates are floating
//! point numbers, which this library never inspects: a `Vec2` is carried
//! through opaquely, and the few operations applied to it are calls into
//! `bevy_math`.
use vstd::prelude::*;
use vstd::std_specs::convert::FromSpecImpl;
use bevy_math::IVec2;

verus! {

/// `bevy_math::Vec2`, carried through the library without looking inside.
#[verifier::external_type_specification]
#[verifier::external_body]
pub struct ExVec2(bevy_math::Vec2);

/// The position whose coordinates are the integers `x` and `y`, as
/// `bevy_math::IVec2::as_vec2` converts them.
pub uninterp spec fn int_vec2(x: i32, y: i32) -> bevy_math::Vec2;

/// Calls `bevy_math::IVec2::new(x, y).as_vec2()`, which casts each integer
/// coordinate to a float. The contract only names the result: it depends on
/// `x` and `y` alone.
#[verifier::external_body]
pub fn vec2_from_ints(x: i32, y: i32) -> (r: bevy_math::Vec2)
    ensures
        r == int_vec2(x, y),
{
    IVec2::new(x, y).as_vec2()
}


/// `r` is a result of adding `b` to `a` coordinate by coordinate, as
/// `bevy_math::Vec2` does it in floating point.
///
/// This is a relation, not a function: Rust leaves the bits of a NaN result
/// open, so the same operands need not give the same bits.
pub uninterp spec fn vec2_sum(a: bevy_math::Vec2, b: bevy_math::Vec2, r: bevy_math::Vec2) -> bool;

/// `r` is a result of subtracting `b` from `a` coordinate by coordinate, as
/// `bevy_math::Vec2` does it in floating point. A relation for the same
/// reason as `vec2_sum`.
pub uninterp spec fn vec2_difference(a: bevy_math::Vec2, b: bevy_math::Vec2, r: bevy_math::Vec2) -> bool;

/// Calls `<bevy_math::Vec2 as AddAssign>::add_assign`, which adds `delta` to
/// `target` coordinate by coordinate. The contract says that the new value
/// is such a sum and nothing more: the coordinates are floating point
/// numbers, which this library does not describe.
#[verifier::external_body]
pub fn add_assign_vec2(target: &mut bevy_math::Vec2, delta: bevy_math::Vec2)
    ensures
        vec2_sum(*old(target), delta, *final(target)),
{
    *target += delta;
}

/// Calls `<bevy_math::Vec2 as SubAssign>::sub_assign`, which subtracts
/// `delta` from `target` coordinate by coordinate. The contract says that
/// the new value is such a difference and nothing more.
#[verifier::external_body]
pub fn sub_assign_vec2(target: &mut bevy_math::Vec2, delta: bevy_math::Vec2)
    ensures
        vec2_difference(*old(target), delta, *final(target)),
{
    *target -= delta;
}

/// A shared borrow of a position.
pub struct SafeVec2<'a>(&'a bevy_math::Vec2);

/// A mutable borrow of a position.
pub struct SafeMutVec2<'a>(&'a mut bevy_math::Vec2);

impl<'a> From<&'a bevy_math::Vec2> for SafeVec2<'a> {
    fn from(value: &'a bevy_math::Vec2) -> (r: Self) {
        SafeVec2(value)
    }
}

impl<'a> FromSpecImpl<&'a bevy_math::Vec2> for SafeVec2<'a> {
    open spec fn obeys_from_spec() -> bool {
        true
    }

    closed spec fn from_spec(v: &'a bevy_math::Vec2) -> Self {
        SafeVec2(v)
    }
}

impl<'a> From<SafeVec2<'a>> for bevy_math::Vec2 {
    /// The borrowed position.
    fn from(value: SafeVec2<'a>) -> (r: Self) {
        *value.0
    }
}

impl<'a> FromSpecImpl<SafeVec2<'a>> for bevy_math::Vec2 {
    open spec fn obeys_from_spec() -> bool {
        true
    }

    closed spec fn from_spec(v: SafeVec2<'a>) -> Self {
        *v.0
    }
}

impl<'a> From<&'a mut bevy_math::Vec2> for SafeMutVec2<'a> {
    fn from(value: &'a mut bevy_math::Vec2) -> (r: Self) {
        SafeMutVec2(value)
    }
}

impl<'a> FromSpecImpl<&'a mut bevy_math::Vec2> for SafeMutVec2<'a> {
    /// A wrapped mutable borrow is not compared with a fresh one.
    open spec fn obeys_from_spec() -> bool {
        false
    }

    closed spec fn from_spec(v: &'a mut bevy_math::Vec2) -> Self {
        SafeMutVec2(v)
    }
}

impl<'a> FromSpecImpl<SafeMutVec2<'a>> for bevy_math::Vec2 {
    open spec fn obeys_from_spec() -> bool {
        true
    }

    closed spec fn from_spec(v: SafeMutVec2<'a>) -> Self {
        *v.0
    }
}

impl<'a> From<SafeMutVec2<'a>> for bevy_math::Vec2 {
    /// The borrowed position.
    fn from(value: SafeMutVec2<'a>) -> (r: Self) {
        *value.0
    }
}

} // verus!
