//! Component-wise arithmetic on [`Vector2`].
//!
//! Every operation saturates: a component that would leave the range of `i64`
//! sticks at the nearest end of it.

use vstd::prelude::*;
use crate::fixed::{sat_add, sat_mul, saturate};
use crate::vector::Vector2;

verus! {

/// Adding a vector, component by component.
pub trait AddVector: Sized {
    /// The value that [`AddVector::add_vector`] leaves behind.
    spec fn plus(self, other: Vector2) -> Self;

    fn add_vector(&mut self, other: &Vector2)
        ensures
            *final(self) == old(self).plus(*other),
    ;
}

/// Adding one scalar to every component.
pub trait AddScalar: Sized {
    /// The value that [`AddScalar::add`] leaves behind.
    spec fn plus_scalar(self, other: i64) -> Self;

    fn add(&mut self, other: i64)
        ensures
            *final(self) == old(self).plus_scalar(other),
    ;
}

/// Multiplying every component by one scalar factor.
pub trait MultiplyScalar: Sized {
    /// The value that [`MultiplyScalar::multiply`] leaves behind.
    spec fn times(self, other: i64) -> Self;

    fn multiply(&mut self, other: i64)
        ensures
            *final(self) == old(self).times(other),
    ;
}

impl AddVector for Vector2 {
    open spec fn plus(self, other: Vector2) -> Vector2 {
        Vector2 { x: saturate(self.x + other.x), y: saturate(self.y + other.y) }
    }

    fn add_vector(&mut self, other: &Vector2) {
        self.x = sat_add(self.x, other.x);
        self.y = sat_add(self.y, other.y);
    }
}

impl AddScalar for Vector2 {
    open spec fn plus_scalar(self, other: i64) -> Vector2 {
        Vector2 { x: saturate(self.x + other), y: saturate(self.y + other) }
    }

    fn add(&mut self, other: i64) {
        self.x = sat_add(self.x, other);
        self.y = sat_add(self.y, other);
    }
}

impl MultiplyScalar for Vector2 {
    open spec fn times(self, other: i64) -> Vector2 {
        Vector2 { x: saturate(self.x * other), y: saturate(self.y * other) }
    }

    fn multiply(&mut self, other: i64) {
        self.x = sat_mul(self.x, other);
        self.y = sat_mul(self.y, other);
    }
}

} // verus!
