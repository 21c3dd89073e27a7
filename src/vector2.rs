use std::ops::{Add, Div, Mul, Neg, Sub};

use vstd::prelude::*;
use vstd::std_specs::ops::{AddSpec, DivSpec, MulSpec, NegSpec, SubSpec};

verus! {

/// A two-dimensional vector.
#[derive(Clone, Copy, Debug, Default, PartialEq, Eq, Structural, PartialOrd, Ord, Hash)]
pub struct Vector2<T> {
    /// The x-component of the vector.
    pub x: T,
    /// The y-component of the vector.
    pub y: T,
}

/// A [`Vector2`] with [`i32`] components.
pub type Vector2i = Vector2<i32>;

/// A [`Vector2`] with [`u32`] components.
pub type Vector2u = Vector2<u32>;

impl<T> Vector2<T> {
    /// Returns a new [`Vector2`] with the given components.
    pub fn new(x: T, y: T) -> (r: Self)
        ensures
            r.x == x,
            r.y == y,
    {
        Self { x, y }
    }
}

impl<T> From<(T, T)> for Vector2<T> {
    fn from(pair: (T, T)) -> (r: Self) {
        let (x, y) = pair;
        Self { x, y }
    }
}

impl<T> vstd::std_specs::convert::FromSpecImpl<(T, T)> for Vector2<T> {
    open spec fn obeys_from_spec() -> bool {
        true
    }

    open spec fn from_spec(pair: (T, T)) -> Self {
        Vector2 { x: pair.0, y: pair.1 }
    }
}

impl<T: Add> vstd::std_specs::ops::AddSpecImpl for Vector2<T> {
    open spec fn obeys_add_spec() -> bool {
        T::obeys_add_spec()
    }

    open spec fn add_req(self, rhs: Self) -> bool {
        self.x.add_req(rhs.x) && self.y.add_req(rhs.y)
    }

    open spec fn add_spec(self, rhs: Self) -> Vector2<T::Output> {
        Vector2 { x: self.x.add_spec(rhs.x), y: self.y.add_spec(rhs.y) }
    }
}

impl<T: Add> Add for Vector2<T> {
    type Output = Vector2<T::Output>;

    fn add(self, rhs: Vector2<T>) -> Vector2<T::Output> {
        Vector2 { x: self.x + rhs.x, y: self.y + rhs.y }
    }
}

impl<T: Add + Copy> vstd::std_specs::ops::AddSpecImpl<T> for Vector2<T> {
    open spec fn obeys_add_spec() -> bool {
        T::obeys_add_spec()
    }

    open spec fn add_req(self, rhs: T) -> bool {
        self.x.add_req(rhs) && self.y.add_req(rhs)
    }

    open spec fn add_spec(self, rhs: T) -> Vector2<T::Output> {
        Vector2 { x: self.x.add_spec(rhs), y: self.y.add_spec(rhs) }
    }
}

impl<T: Add + Copy> Add<T> for Vector2<T> {
    type Output = Vector2<T::Output>;

    fn add(self, rhs: T) -> Vector2<T::Output> {
        Vector2 { x: self.x + rhs, y: self.y + rhs }
    }
}

impl vstd::std_specs::ops::AddSpecImpl<Vector2<i32>> for i32 {
    open spec fn obeys_add_spec() -> bool {
        true
    }

    open spec fn add_req(self, rhs: Vector2<i32>) -> bool {
        <i32 as AddSpec>::add_req(self, rhs.x) && <i32 as AddSpec>::add_req(self, rhs.y)
    }

    open spec fn add_spec(self, rhs: Vector2<i32>) -> Vector2<i32> {
        Vector2 { x: <i32 as AddSpec>::add_spec(self, rhs.x), y: <i32 as AddSpec>::add_spec(self, rhs.y) }
    }
}

impl Add<Vector2<i32>> for i32 {
    type Output = Vector2<i32>;

    fn add(self, rhs: Vector2<i32>) -> Vector2<i32> {
        Vector2 { x: self + rhs.x, y: self + rhs.y }
    }
}

impl vstd::std_specs::ops::AddSpecImpl<Vector2<u32>> for u32 {
    open spec fn obeys_add_spec() -> bool {
        true
    }

    open spec fn add_req(self, rhs: Vector2<u32>) -> bool {
        <u32 as AddSpec>::add_req(self, rhs.x) && <u32 as AddSpec>::add_req(self, rhs.y)
    }

    open spec fn add_spec(self, rhs: Vector2<u32>) -> Vector2<u32> {
        Vector2 { x: <u32 as AddSpec>::add_spec(self, rhs.x), y: <u32 as AddSpec>::add_spec(self, rhs.y) }
    }
}

impl Add<Vector2<u32>> for u32 {
    type Output = Vector2<u32>;

    fn add(self, rhs: Vector2<u32>) -> Vector2<u32> {
        Vector2 { x: self + rhs.x, y: self + rhs.y }
    }
}

impl<T: Sub> vstd::std_specs::ops::SubSpecImpl for Vector2<T> {
    open spec fn obeys_sub_spec() -> bool {
        T::obeys_sub_spec()
    }

    open spec fn sub_req(self, rhs: Self) -> bool {
        self.x.sub_req(rhs.x) && self.y.sub_req(rhs.y)
    }

    open spec fn sub_spec(self, rhs: Self) -> Vector2<T::Output> {
        Vector2 { x: self.x.sub_spec(rhs.x), y: self.y.sub_spec(rhs.y) }
    }
}

impl<T: Sub> Sub for Vector2<T> {
    type Output = Vector2<T::Output>;

    fn sub(self, rhs: Vector2<T>) -> Vector2<T::Output> {
        Vector2 { x: self.x - rhs.x, y: self.y - rhs.y }
    }
}

impl<T: Sub + Copy> vstd::std_specs::ops::SubSpecImpl<T> for Vector2<T> {
    open spec fn obeys_sub_spec() -> bool {
        T::obeys_sub_spec()
    }

    open spec fn sub_req(self, rhs: T) -> bool {
        self.x.sub_req(rhs) && self.y.sub_req(rhs)
    }

    open spec fn sub_spec(self, rhs: T) -> Vector2<T::Output> {
        Vector2 { x: self.x.sub_spec(rhs), y: self.y.sub_spec(rhs) }
    }
}

impl<T: Sub + Copy> Sub<T> for Vector2<T> {
    type Output = Vector2<T::Output>;

    fn sub(self, rhs: T) -> Vector2<T::Output> {
        Vector2 { x: self.x - rhs, y: self.y - rhs }
    }
}

impl vstd::std_specs::ops::SubSpecImpl<Vector2<i32>> for i32 {
    open spec fn obeys_sub_spec() -> bool {
        true
    }

    open spec fn sub_req(self, rhs: Vector2<i32>) -> bool {
        <i32 as SubSpec>::sub_req(self, rhs.x) && <i32 as SubSpec>::sub_req(self, rhs.y)
    }

    open spec fn sub_spec(self, rhs: Vector2<i32>) -> Vector2<i32> {
        Vector2 { x: <i32 as SubSpec>::sub_spec(self, rhs.x), y: <i32 as SubSpec>::sub_spec(self, rhs.y) }
    }
}

impl Sub<Vector2<i32>> for i32 {
    type Output = Vector2<i32>;

    fn sub(self, rhs: Vector2<i32>) -> Vector2<i32> {
        Vector2 { x: self - rhs.x, y: self - rhs.y }
    }
}

impl vstd::std_specs::ops::SubSpecImpl<Vector2<u32>> for u32 {
    open spec fn obeys_sub_spec() -> bool {
        true
    }

    open spec fn sub_req(self, rhs: Vector2<u32>) -> bool {
        <u32 as SubSpec>::sub_req(self, rhs.x) && <u32 as SubSpec>::sub_req(self, rhs.y)
    }

    open spec fn sub_spec(self, rhs: Vector2<u32>) -> Vector2<u32> {
        Vector2 { x: <u32 as SubSpec>::sub_spec(self, rhs.x), y: <u32 as SubSpec>::sub_spec(self, rhs.y) }
    }
}

impl Sub<Vector2<u32>> for u32 {
    type Output = Vector2<u32>;

    fn sub(self, rhs: Vector2<u32>) -> Vector2<u32> {
        Vector2 { x: self - rhs.x, y: self - rhs.y }
    }
}

impl<T: Mul> vstd::std_specs::ops::MulSpecImpl for Vector2<T> {
    open spec fn obeys_mul_spec() -> bool {
        T::obeys_mul_spec()
    }

    open spec fn mul_req(self, rhs: Self) -> bool {
        self.x.mul_req(rhs.x) && self.y.mul_req(rhs.y)
    }

    open spec fn mul_spec(self, rhs: Self) -> Vector2<T::Output> {
        Vector2 { x: self.x.mul_spec(rhs.x), y: self.y.mul_spec(rhs.y) }
    }
}

impl<T: Mul> Mul for Vector2<T> {
    type Output = Vector2<T::Output>;

    fn mul(self, rhs: Vector2<T>) -> Vector2<T::Output> {
        Vector2 { x: self.x * rhs.x, y: self.y * rhs.y }
    }
}

impl<T: Mul + Copy> vstd::std_specs::ops::MulSpecImpl<T> for Vector2<T> {
    open spec fn obeys_mul_spec() -> bool {
        T::obeys_mul_spec()
    }

    open spec fn mul_req(self, rhs: T) -> bool {
        self.x.mul_req(rhs) && self.y.mul_req(rhs)
    }

    open spec fn mul_spec(self, rhs: T) -> Vector2<T::Output> {
        Vector2 { x: self.x.mul_spec(rhs), y: self.y.mul_spec(rhs) }
    }
}

impl<T: Mul + Copy> Mul<T> for Vector2<T> {
    type Output = Vector2<T::Output>;

    fn mul(self, rhs: T) -> Vector2<T::Output> {
        Vector2 { x: self.x * rhs, y: self.y * rhs }
    }
}

impl vstd::std_specs::ops::MulSpecImpl<Vector2<i32>> for i32 {
    open spec fn obeys_mul_spec() -> bool {
        true
    }

    open spec fn mul_req(self, rhs: Vector2<i32>) -> bool {
        <i32 as MulSpec>::mul_req(self, rhs.x) && <i32 as MulSpec>::mul_req(self, rhs.y)
    }

    open spec fn mul_spec(self, rhs: Vector2<i32>) -> Vector2<i32> {
        Vector2 { x: <i32 as MulSpec>::mul_spec(self, rhs.x), y: <i32 as MulSpec>::mul_spec(self, rhs.y) }
    }
}

impl Mul<Vector2<i32>> for i32 {
    type Output = Vector2<i32>;

    fn mul(self, rhs: Vector2<i32>) -> Vector2<i32> {
        Vector2 { x: self * rhs.x, y: self * rhs.y }
    }
}

impl vstd::std_specs::ops::MulSpecImpl<Vector2<u32>> for u32 {
    open spec fn obeys_mul_spec() -> bool {
        true
    }

    open spec fn mul_req(self, rhs: Vector2<u32>) -> bool {
        <u32 as MulSpec>::mul_req(self, rhs.x) && <u32 as MulSpec>::mul_req(self, rhs.y)
    }

    open spec fn mul_spec(self, rhs: Vector2<u32>) -> Vector2<u32> {
        Vector2 { x: <u32 as MulSpec>::mul_spec(self, rhs.x), y: <u32 as MulSpec>::mul_spec(self, rhs.y) }
    }
}

impl Mul<Vector2<u32>> for u32 {
    type Output = Vector2<u32>;

    fn mul(self, rhs: Vector2<u32>) -> Vector2<u32> {
        Vector2 { x: self * rhs.x, y: self * rhs.y }
    }
}

impl<T: Div> vstd::std_specs::ops::DivSpecImpl for Vector2<T> {
    open spec fn obeys_div_spec() -> bool {
        T::obeys_div_spec()
    }

    open spec fn div_req(self, rhs: Self) -> bool {
        self.x.div_req(rhs.x) && self.y.div_req(rhs.y)
    }

    open spec fn div_spec(self, rhs: Self) -> Vector2<T::Output> {
        Vector2 { x: self.x.div_spec(rhs.x), y: self.y.div_spec(rhs.y) }
    }
}

impl<T: Div> Div for Vector2<T> {
    type Output = Vector2<T::Output>;

    fn div(self, rhs: Vector2<T>) -> Vector2<T::Output> {
        Vector2 { x: self.x / rhs.x, y: self.y / rhs.y }
    }
}

impl<T: Div + Copy> vstd::std_specs::ops::DivSpecImpl<T> for Vector2<T> {
    open spec fn obeys_div_spec() -> bool {
        T::obeys_div_spec()
    }

    open spec fn div_req(self, rhs: T) -> bool {
        self.x.div_req(rhs) && self.y.div_req(rhs)
    }

    open spec fn div_spec(self, rhs: T) -> Vector2<T::Output> {
        Vector2 { x: self.x.div_spec(rhs), y: self.y.div_spec(rhs) }
    }
}

impl<T: Div + Copy> Div<T> for Vector2<T> {
    type Output = Vector2<T::Output>;

    fn div(self, rhs: T) -> Vector2<T::Output> {
        Vector2 { x: self.x / rhs, y: self.y / rhs }
    }
}

impl vstd::std_specs::ops::DivSpecImpl<Vector2<i32>> for i32 {
    open spec fn obeys_div_spec() -> bool {
        true
    }

    open spec fn div_req(self, rhs: Vector2<i32>) -> bool {
        <i32 as DivSpec>::div_req(self, rhs.x) && <i32 as DivSpec>::div_req(self, rhs.y)
    }

    open spec fn div_spec(self, rhs: Vector2<i32>) -> Vector2<i32> {
        Vector2 { x: <i32 as DivSpec>::div_spec(self, rhs.x), y: <i32 as DivSpec>::div_spec(self, rhs.y) }
    }
}

impl Div<Vector2<i32>> for i32 {
    type Output = Vector2<i32>;

    fn div(self, rhs: Vector2<i32>) -> Vector2<i32> {
        Vector2 { x: self / rhs.x, y: self / rhs.y }
    }
}

impl vstd::std_specs::ops::DivSpecImpl<Vector2<u32>> for u32 {
    open spec fn obeys_div_spec() -> bool {
        true
    }

    open spec fn div_req(self, rhs: Vector2<u32>) -> bool {
        <u32 as DivSpec>::div_req(self, rhs.x) && <u32 as DivSpec>::div_req(self, rhs.y)
    }

    open spec fn div_spec(self, rhs: Vector2<u32>) -> Vector2<u32> {
        Vector2 { x: <u32 as DivSpec>::div_spec(self, rhs.x), y: <u32 as DivSpec>::div_spec(self, rhs.y) }
    }
}

impl Div<Vector2<u32>> for u32 {
    type Output = Vector2<u32>;

    fn div(self, rhs: Vector2<u32>) -> Vector2<u32> {
        Vector2 { x: self / rhs.x, y: self / rhs.y }
    }
}

impl<T: Neg<Output = T>> vstd::std_specs::ops::NegSpecImpl for Vector2<T> {
    open spec fn obeys_neg_spec() -> bool {
        T::obeys_neg_spec()
    }

    open spec fn neg_req(self) -> bool {
        self.x.neg_req() && self.y.neg_req()
    }

    open spec fn neg_spec(self) -> Self {
        Vector2 { x: self.x.neg_spec(), y: self.y.neg_spec() }
    }
}

impl<T: Neg<Output = T>> Neg for Vector2<T> {
    type Output = Self;

    fn neg(self) -> Self {
        Vector2 { x: self.x.neg(), y: self.y.neg() }
    }
}

} // verus!
