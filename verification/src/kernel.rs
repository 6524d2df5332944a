//! The numeric kernel that the placement pipeline computes with.
//!
//! The library never looks inside a scalar. Every arithmetic step, every
//! comparison and every rotation is handed to an implementation of
//! [`Kernel`], and the library only decides which step comes next and on which
//! values. The contracts in this crate therefore speak of the kernel in two
//! ways:
//!
//! * unconditionally, through `call_ensures`, they record which operation was
//!   asked for and with which arguments;
//! * under the hypothesis [`functional`], that each operation of the kernel is
//!   a function of its arguments, they give the result as a closed formula over
//!   the `*_of` models below.
use vstd::prelude::*;

verus! {

/// A point of three-dimensional space.
#[derive(Clone, Copy, Debug)]
pub struct Point3<S> {
    pub x: S,
    pub y: S,
    pub z: S,
}

/// A displacement in three-dimensional space.
#[derive(Clone, Copy, Debug)]
pub struct Vector3<S> {
    pub x: S,
    pub y: S,
    pub z: S,
}

/// A rotation about the origin, held as the coefficients of a unit
/// quaternion `w + i·𝐢 + j·𝐣 + k·𝐤`.
#[derive(Clone, Copy, Debug)]
pub struct Rotation<S> {
    pub w: S,
    pub i: S,
    pub j: S,
    pub k: S,
}

/// The operations on scalars, vectors and rotations that the pipeline needs.
///
/// No method carries a contract: nothing is assumed of an implementation.
pub trait Kernel {
    /// The scalar that coordinates, lengths and angles are made of.
    type Scalar: Copy;

    /// The scalar that stands for the integer `n`.
    fn from_int(n: i32) -> Self::Scalar;

    /// The scalar that stands for a number of items.
    fn from_count(n: usize) -> Self::Scalar;

    /// The half turn, in radians.
    fn pi() -> Self::Scalar;

    /// The tolerance below which two angles count as equal.
    fn epsilon() -> Self::Scalar;

    /// `a + b`.
    fn sum(a: Self::Scalar, b: Self::Scalar) -> Self::Scalar;

    /// `a - b`.
    fn difference(a: Self::Scalar, b: Self::Scalar) -> Self::Scalar;

    /// `a · b`.
    fn product(a: Self::Scalar, b: Self::Scalar) -> Self::Scalar;

    /// `a / b`.
    fn quotient(a: Self::Scalar, b: Self::Scalar) -> Self::Scalar;

    /// `|a|`.
    fn abs(a: Self::Scalar) -> Self::Scalar;

    /// The cosine of an angle in radians.
    fn cos(a: Self::Scalar) -> Self::Scalar;

    /// The sine of an angle in radians.
    fn sin(a: Self::Scalar) -> Self::Scalar;

    /// An angle in degrees, turned into radians.
    fn to_radians(a: Self::Scalar) -> Self::Scalar;

    /// An angle in radians, turned into degrees.
    fn to_degrees(a: Self::Scalar) -> Self::Scalar;

    /// Whether `a < b`.
    fn less(a: Self::Scalar, b: Self::Scalar) -> bool;

    /// Whether `a` and `b` are the same number.
    fn equal(a: Self::Scalar, b: Self::Scalar) -> bool;

    /// Whether `a` is not a number.
    fn is_nan(a: Self::Scalar) -> bool;

    /// The vector that leads from `from` to `to`.
    fn displacement(to: Point3<Self::Scalar>, from: Point3<Self::Scalar>) -> Vector3<Self::Scalar>;

    /// The cross product `a × b`.
    fn cross(a: Vector3<Self::Scalar>, b: Vector3<Self::Scalar>) -> Vector3<Self::Scalar>;

    /// The dot product `a · b`.
    fn dot(a: Vector3<Self::Scalar>, b: Vector3<Self::Scalar>) -> Self::Scalar;

    /// The smallest angle between `a` and `b`, in radians.
    fn angle(a: Vector3<Self::Scalar>, b: Vector3<Self::Scalar>) -> Self::Scalar;

    /// `a` scaled to length one.
    fn normalize(a: Vector3<Self::Scalar>) -> Vector3<Self::Scalar>;

    /// `a` with each component multiplied by `s`.
    fn scale(a: Vector3<Self::Scalar>, s: Self::Scalar) -> Vector3<Self::Scalar>;

    /// The point `p` moved by `v`.
    fn translate(p: Point3<Self::Scalar>, v: Vector3<Self::Scalar>) -> Point3<Self::Scalar>;

    /// The point halfway between `a` and `b`.
    fn center(a: Point3<Self::Scalar>, b: Point3<Self::Scalar>) -> Point3<Self::Scalar>;

    /// The smallest rotation that turns `a` into the direction of `b`, where
    /// there is exactly one. There is none where `a` and `b` point opposite
    /// ways: a half turn about any axis square to them then does it.
    fn rotation_between(a: Vector3<Self::Scalar>, b: Vector3<Self::Scalar>) -> Option<
        Rotation<Self::Scalar>,
    >;

    /// The rotation by `angle` radians about the direction of `axis`.
    fn axis_angle(axis: Vector3<Self::Scalar>, angle: Self::Scalar) -> Rotation<Self::Scalar>;

    /// The point `p` turned by `q` about the origin.
    fn rotate(q: Rotation<Self::Scalar>, p: Point3<Self::Scalar>) -> Point3<Self::Scalar>;
}

/// Every operation of the kernel `K` is a function of its arguments: two
/// calls with the same arguments cannot give different results.
#[verifier::opaque]
pub open spec fn functional<K: Kernel>() -> bool {
    &&& forall|n: i32, r1: K::Scalar, r2: K::Scalar|
        call_ensures(K::from_int, (n,), r1) && call_ensures(K::from_int, (n,), r2) ==> r1 == r2
    &&& forall|n: usize, r1: K::Scalar, r2: K::Scalar|
        call_ensures(K::from_count, (n,), r1) && call_ensures(K::from_count, (n,), r2) ==> r1
            == r2
    &&& forall|r1: K::Scalar, r2: K::Scalar|
        call_ensures(K::pi, (), r1) && call_ensures(K::pi, (), r2) ==> r1 == r2
    &&& forall|r1: K::Scalar, r2: K::Scalar|
        call_ensures(K::epsilon, (), r1) && call_ensures(K::epsilon, (), r2) ==> r1 == r2
    &&& forall|a: K::Scalar, b: K::Scalar, r1: K::Scalar, r2: K::Scalar|
        call_ensures(K::sum, (a, b), r1) && call_ensures(K::sum, (a, b), r2) ==> r1 == r2
    &&& forall|a: K::Scalar, b: K::Scalar, r1: K::Scalar, r2: K::Scalar|
        call_ensures(K::difference, (a, b), r1) && call_ensures(K::difference, (a, b), r2)
            ==> r1 == r2
    &&& forall|a: K::Scalar, b: K::Scalar, r1: K::Scalar, r2: K::Scalar|
        call_ensures(K::product, (a, b), r1) && call_ensures(K::product, (a, b), r2) ==> r1
            == r2
    &&& forall|a: K::Scalar, b: K::Scalar, r1: K::Scalar, r2: K::Scalar|
        call_ensures(K::quotient, (a, b), r1) && call_ensures(K::quotient, (a, b), r2) ==> r1
            == r2
    &&& forall|a: K::Scalar, r1: K::Scalar, r2: K::Scalar|
        call_ensures(K::abs, (a,), r1) && call_ensures(K::abs, (a,), r2) ==> r1 == r2
    &&& forall|a: K::Scalar, r1: K::Scalar, r2: K::Scalar|
        call_ensures(K::cos, (a,), r1) && call_ensures(K::cos, (a,), r2) ==> r1 == r2
    &&& forall|a: K::Scalar, r1: K::Scalar, r2: K::Scalar|
        call_ensures(K::sin, (a,), r1) && call_ensures(K::sin, (a,), r2) ==> r1 == r2
    &&& forall|a: K::Scalar, r1: K::Scalar, r2: K::Scalar|
        call_ensures(K::to_radians, (a,), r1) && call_ensures(K::to_radians, (a,), r2) ==> r1
            == r2
    &&& forall|a: K::Scalar, r1: K::Scalar, r2: K::Scalar|
        call_ensures(K::to_degrees, (a,), r1) && call_ensures(K::to_degrees, (a,), r2) ==> r1
            == r2
    &&& forall|a: K::Scalar, b: K::Scalar, r1: bool, r2: bool|
        call_ensures(K::less, (a, b), r1) && call_ensures(K::less, (a, b), r2) ==> r1 == r2
    &&& forall|a: K::Scalar, b: K::Scalar, r1: bool, r2: bool|
        call_ensures(K::equal, (a, b), r1) && call_ensures(K::equal, (a, b), r2) ==> r1 == r2
    &&& forall|a: K::Scalar, r1: bool, r2: bool|
        call_ensures(K::is_nan, (a,), r1) && call_ensures(K::is_nan, (a,), r2) ==> r1 == r2
    &&& forall|
        a: Point3<K::Scalar>,
        b: Point3<K::Scalar>,
        r1: Vector3<K::Scalar>,
        r2: Vector3<K::Scalar>,
    |
        call_ensures(K::displacement, (a, b), r1) && call_ensures(K::displacement, (a, b), r2)
            ==> r1 == r2
    &&& forall|
        a: Vector3<K::Scalar>,
        b: Vector3<K::Scalar>,
        r1: Vector3<K::Scalar>,
        r2: Vector3<K::Scalar>,
    |
        call_ensures(K::cross, (a, b), r1) && call_ensures(K::cross, (a, b), r2) ==> r1 == r2
    &&& forall|a: Vector3<K::Scalar>, b: Vector3<K::Scalar>, r1: K::Scalar, r2: K::Scalar|
        call_ensures(K::dot, (a, b), r1) && call_ensures(K::dot, (a, b), r2) ==> r1 == r2
    &&& forall|a: Vector3<K::Scalar>, b: Vector3<K::Scalar>, r1: K::Scalar, r2: K::Scalar|
        call_ensures(K::angle, (a, b), r1) && call_ensures(K::angle, (a, b), r2) ==> r1 == r2
    &&& forall|a: Vector3<K::Scalar>, r1: Vector3<K::Scalar>, r2: Vector3<K::Scalar>|
        call_ensures(K::normalize, (a,), r1) && call_ensures(K::normalize, (a,), r2) ==> r1
            == r2
    &&& forall|
        a: Vector3<K::Scalar>,
        s: K::Scalar,
        r1: Vector3<K::Scalar>,
        r2: Vector3<K::Scalar>,
    |
        call_ensures(K::scale, (a, s), r1) && call_ensures(K::scale, (a, s), r2) ==> r1 == r2
    &&& forall|
        p: Point3<K::Scalar>,
        v: Vector3<K::Scalar>,
        r1: Point3<K::Scalar>,
        r2: Point3<K::Scalar>,
    |
        call_ensures(K::translate, (p, v), r1) && call_ensures(K::translate, (p, v), r2) ==> r1
            == r2
    &&& forall|
        a: Point3<K::Scalar>,
        b: Point3<K::Scalar>,
        r1: Point3<K::Scalar>,
        r2: Point3<K::Scalar>,
    |
        call_ensures(K::center, (a, b), r1) && call_ensures(K::center, (a, b), r2) ==> r1 == r2
    &&& forall|
        a: Vector3<K::Scalar>,
        b: Vector3<K::Scalar>,
        r1: Option<Rotation<K::Scalar>>,
        r2: Option<Rotation<K::Scalar>>,
    |
        call_ensures(K::rotation_between, (a, b), r1) && call_ensures(
            K::rotation_between,
            (a, b),
            r2,
        ) ==> r1 == r2
    &&& forall|
        a: Vector3<K::Scalar>,
        s: K::Scalar,
        r1: Rotation<K::Scalar>,
        r2: Rotation<K::Scalar>,
    |
        call_ensures(K::axis_angle, (a, s), r1) && call_ensures(K::axis_angle, (a, s), r2)
            ==> r1 == r2
    &&& forall|
        q: Rotation<K::Scalar>,
        p: Point3<K::Scalar>,
        r1: Point3<K::Scalar>,
        r2: Point3<K::Scalar>,
    |
        call_ensures(K::rotate, (q, p), r1) && call_ensures(K::rotate, (q, p), r2) ==> r1 == r2
}

/// What `K::from_int(n)` returns.
pub open spec fn from_int_of<K: Kernel>(n: i32) -> K::Scalar {
    choose|r: K::Scalar| call_ensures(K::from_int, (n,), r)
}

/// What `K::from_count(n)` returns.
pub open spec fn from_count_of<K: Kernel>(n: usize) -> K::Scalar {
    choose|r: K::Scalar| call_ensures(K::from_count, (n,), r)
}

/// What `K::pi()` returns.
pub open spec fn pi_of<K: Kernel>() -> K::Scalar {
    choose|r: K::Scalar| call_ensures(K::pi, (), r)
}

/// What `K::epsilon()` returns.
pub open spec fn epsilon_of<K: Kernel>() -> K::Scalar {
    choose|r: K::Scalar| call_ensures(K::epsilon, (), r)
}

/// What `K::sum(a, b)` returns.
pub open spec fn sum_of<K: Kernel>(a: K::Scalar, b: K::Scalar) -> K::Scalar {
    choose|r: K::Scalar| call_ensures(K::sum, (a, b), r)
}

/// What `K::difference(a, b)` returns.
pub open spec fn difference_of<K: Kernel>(a: K::Scalar, b: K::Scalar) -> K::Scalar {
    choose|r: K::Scalar| call_ensures(K::difference, (a, b), r)
}

/// What `K::product(a, b)` returns.
pub open spec fn product_of<K: Kernel>(a: K::Scalar, b: K::Scalar) -> K::Scalar {
    choose|r: K::Scalar| call_ensures(K::product, (a, b), r)
}

/// What `K::quotient(a, b)` returns.
pub open spec fn quotient_of<K: Kernel>(a: K::Scalar, b: K::Scalar) -> K::Scalar {
    choose|r: K::Scalar| call_ensures(K::quotient, (a, b), r)
}

/// What `K::abs(a)` returns.
pub open spec fn abs_of<K: Kernel>(a: K::Scalar) -> K::Scalar {
    choose|r: K::Scalar| call_ensures(K::abs, (a,), r)
}

/// What `K::cos(a)` returns.
pub open spec fn cos_of<K: Kernel>(a: K::Scalar) -> K::Scalar {
    choose|r: K::Scalar| call_ensures(K::cos, (a,), r)
}

/// What `K::sin(a)` returns.
pub open spec fn sin_of<K: Kernel>(a: K::Scalar) -> K::Scalar {
    choose|r: K::Scalar| call_ensures(K::sin, (a,), r)
}

/// What `K::to_radians(a)` returns.
pub open spec fn to_radians_of<K: Kernel>(a: K::Scalar) -> K::Scalar {
    choose|r: K::Scalar| call_ensures(K::to_radians, (a,), r)
}

/// What `K::to_degrees(a)` returns.
pub open spec fn to_degrees_of<K: Kernel>(a: K::Scalar) -> K::Scalar {
    choose|r: K::Scalar| call_ensures(K::to_degrees, (a,), r)
}

/// What `K::less(a, b)` returns.
pub open spec fn less_of<K: Kernel>(a: K::Scalar, b: K::Scalar) -> bool {
    choose|r: bool| call_ensures(K::less, (a, b), r)
}

/// What `K::equal(a, b)` returns.
pub open spec fn equal_of<K: Kernel>(a: K::Scalar, b: K::Scalar) -> bool {
    choose|r: bool| call_ensures(K::equal, (a, b), r)
}

/// What `K::is_nan(a)` returns.
pub open spec fn is_nan_of<K: Kernel>(a: K::Scalar) -> bool {
    choose|r: bool| call_ensures(K::is_nan, (a,), r)
}

/// Whether `a` is finite: `a − a` is a number. For an `a` that is infinite
/// or not a number, the difference is not a number.
pub open spec fn finite_of<K: Kernel>(a: K::Scalar) -> bool {
    !is_nan_of::<K>(difference_of::<K>(a, a))
}

/// What `K::displacement(to, from)` returns.
pub open spec fn displacement_of<K: Kernel>(
    to: Point3<K::Scalar>,
    from: Point3<K::Scalar>,
) -> Vector3<K::Scalar> {
    choose|r: Vector3<K::Scalar>| call_ensures(K::displacement, (to, from), r)
}

/// What `K::cross(a, b)` returns.
pub open spec fn cross_of<K: Kernel>(a: Vector3<K::Scalar>, b: Vector3<K::Scalar>) -> Vector3<
    K::Scalar,
> {
    choose|r: Vector3<K::Scalar>| call_ensures(K::cross, (a, b), r)
}

/// What `K::dot(a, b)` returns.
pub open spec fn dot_of<K: Kernel>(a: Vector3<K::Scalar>, b: Vector3<K::Scalar>) -> K::Scalar {
    choose|r: K::Scalar| call_ensures(K::dot, (a, b), r)
}

/// What `K::angle(a, b)` returns.
pub open spec fn angle_of<K: Kernel>(a: Vector3<K::Scalar>, b: Vector3<K::Scalar>) -> K::Scalar {
    choose|r: K::Scalar| call_ensures(K::angle, (a, b), r)
}

/// What `K::normalize(a)` returns.
pub open spec fn normalize_of<K: Kernel>(a: Vector3<K::Scalar>) -> Vector3<K::Scalar> {
    choose|r: Vector3<K::Scalar>| call_ensures(K::normalize, (a,), r)
}

/// What `K::scale(a, s)` returns.
pub open spec fn scale_of<K: Kernel>(a: Vector3<K::Scalar>, s: K::Scalar) -> Vector3<K::Scalar> {
    choose|r: Vector3<K::Scalar>| call_ensures(K::scale, (a, s), r)
}

/// What `K::translate(p, v)` returns.
pub open spec fn translate_of<K: Kernel>(p: Point3<K::Scalar>, v: Vector3<K::Scalar>) -> Point3<
    K::Scalar,
> {
    choose|r: Point3<K::Scalar>| call_ensures(K::translate, (p, v), r)
}

/// What `K::center(a, b)` returns.
pub open spec fn center_of<K: Kernel>(a: Point3<K::Scalar>, b: Point3<K::Scalar>) -> Point3<
    K::Scalar,
> {
    choose|r: Point3<K::Scalar>| call_ensures(K::center, (a, b), r)
}

/// What `K::rotation_between(a, b)` returns.
pub open spec fn rotation_between_of<K: Kernel>(
    a: Vector3<K::Scalar>,
    b: Vector3<K::Scalar>,
) -> Option<Rotation<K::Scalar>> {
    choose|r: Option<Rotation<K::Scalar>>| call_ensures(K::rotation_between, (a, b), r)
}

/// What `K::axis_angle(axis, angle)` returns.
pub open spec fn axis_angle_of<K: Kernel>(axis: Vector3<K::Scalar>, angle: K::Scalar) -> Rotation<
    K::Scalar,
> {
    choose|r: Rotation<K::Scalar>| call_ensures(K::axis_angle, (axis, angle), r)
}

/// What `K::rotate(q, p)` returns.
pub open spec fn rotate_of<K: Kernel>(q: Rotation<K::Scalar>, p: Point3<K::Scalar>) -> Point3<
    K::Scalar,
> {
    choose|r: Point3<K::Scalar>| call_ensures(K::rotate, (q, p), r)
}

/// The scalar for the integer `n`.
pub fn from_int<K: Kernel>(n: i32) -> (r: K::Scalar)
    ensures
        call_ensures(K::from_int, (n,), r),
        functional::<K>() ==> r == from_int_of::<K>(n),
{
    reveal(functional);
    K::from_int(n)
}

/// The scalar for a number of items.
pub fn from_count<K: Kernel>(n: usize) -> (r: K::Scalar)
    ensures
        call_ensures(K::from_count, (n,), r),
        functional::<K>() ==> r == from_count_of::<K>(n),
{
    reveal(functional);
    K::from_count(n)
}

/// The half turn, in radians.
pub fn pi<K: Kernel>() -> (r: K::Scalar)
    ensures
        call_ensures(K::pi, (), r),
        functional::<K>() ==> r == pi_of::<K>(),
{
    reveal(functional);
    K::pi()
}

/// The tolerance below which two angles count as equal.
pub fn epsilon<K: Kernel>() -> (r: K::Scalar)
    ensures
        call_ensures(K::epsilon, (), r),
        functional::<K>() ==> r == epsilon_of::<K>(),
{
    reveal(functional);
    K::epsilon()
}

/// `a + b`.
pub fn sum<K: Kernel>(a: K::Scalar, b: K::Scalar) -> (r: K::Scalar)
    ensures
        call_ensures(K::sum, (a, b), r),
        functional::<K>() ==> r == sum_of::<K>(a, b),
{
    reveal(functional);
    K::sum(a, b)
}

/// `a - b`.
pub fn difference<K: Kernel>(a: K::Scalar, b: K::Scalar) -> (r: K::Scalar)
    ensures
        call_ensures(K::difference, (a, b), r),
        functional::<K>() ==> r == difference_of::<K>(a, b),
{
    reveal(functional);
    K::difference(a, b)
}

/// `a · b`.
pub fn product<K: Kernel>(a: K::Scalar, b: K::Scalar) -> (r: K::Scalar)
    ensures
        call_ensures(K::product, (a, b), r),
        functional::<K>() ==> r == product_of::<K>(a, b),
{
    reveal(functional);
    K::product(a, b)
}

/// `a / b`.
pub fn quotient<K: Kernel>(a: K::Scalar, b: K::Scalar) -> (r: K::Scalar)
    ensures
        call_ensures(K::quotient, (a, b), r),
        functional::<K>() ==> r == quotient_of::<K>(a, b),
{
    reveal(functional);
    K::quotient(a, b)
}

/// `|a|`.
pub fn abs<K: Kernel>(a: K::Scalar) -> (r: K::Scalar)
    ensures
        call_ensures(K::abs, (a,), r),
        functional::<K>() ==> r == abs_of::<K>(a),
{
    reveal(functional);
    K::abs(a)
}

/// The cosine of an angle in radians.
pub fn cos<K: Kernel>(a: K::Scalar) -> (r: K::Scalar)
    ensures
        call_ensures(K::cos, (a,), r),
        functional::<K>() ==> r == cos_of::<K>(a),
{
    reveal(functional);
    K::cos(a)
}

/// The sine of an angle in radians.
pub fn sin<K: Kernel>(a: K::Scalar) -> (r: K::Scalar)
    ensures
        call_ensures(K::sin, (a,), r),
        functional::<K>() ==> r == sin_of::<K>(a),
{
    reveal(functional);
    K::sin(a)
}

/// An angle in degrees, turned into radians.
pub fn to_radians<K: Kernel>(a: K::Scalar) -> (r: K::Scalar)
    ensures
        call_ensures(K::to_radians, (a,), r),
        functional::<K>() ==> r == to_radians_of::<K>(a),
{
    reveal(functional);
    K::to_radians(a)
}

/// An angle in radians, turned into degrees.
pub fn to_degrees<K: Kernel>(a: K::Scalar) -> (r: K::Scalar)
    ensures
        call_ensures(K::to_degrees, (a,), r),
        functional::<K>() ==> r == to_degrees_of::<K>(a),
{
    reveal(functional);
    K::to_degrees(a)
}

/// Whether `a < b`.
pub fn less<K: Kernel>(a: K::Scalar, b: K::Scalar) -> (r: bool)
    ensures
        call_ensures(K::less, (a, b), r),
        functional::<K>() ==> r == less_of::<K>(a, b),
{
    reveal(functional);
    K::less(a, b)
}

/// Whether `a` and `b` are the same number.
pub fn equal<K: Kernel>(a: K::Scalar, b: K::Scalar) -> (r: bool)
    ensures
        call_ensures(K::equal, (a, b), r),
        functional::<K>() ==> r == equal_of::<K>(a, b),
{
    reveal(functional);
    K::equal(a, b)
}

/// Whether `a` is not a number.
pub fn is_nan<K: Kernel>(a: K::Scalar) -> (r: bool)
    ensures
        call_ensures(K::is_nan, (a,), r),
        functional::<K>() ==> r == is_nan_of::<K>(a),
{
    reveal(functional);
    K::is_nan(a)
}

/// Whether `a` is finite: neither infinite nor not a number.
pub fn is_finite<K: Kernel>(a: K::Scalar) -> (r: bool)
    ensures
        functional::<K>() ==> r == finite_of::<K>(a),
{
    !is_nan::<K>(difference::<K>(a, a))
}

/// The vector that leads from `from` to `to`.
pub fn displacement<K: Kernel>(to: Point3<K::Scalar>, from: Point3<K::Scalar>) -> (r: Vector3<
    K::Scalar,
>)
    ensures
        call_ensures(K::displacement, (to, from), r),
        functional::<K>() ==> r == displacement_of::<K>(to, from),
{
    reveal(functional);
    K::displacement(to, from)
}

/// The cross product `a × b`.
pub fn cross<K: Kernel>(a: Vector3<K::Scalar>, b: Vector3<K::Scalar>) -> (r: Vector3<K::Scalar>)
    ensures
        call_ensures(K::cross, (a, b), r),
        functional::<K>() ==> r == cross_of::<K>(a, b),
{
    reveal(functional);
    K::cross(a, b)
}

/// The dot product `a · b`.
pub fn dot<K: Kernel>(a: Vector3<K::Scalar>, b: Vector3<K::Scalar>) -> (r: K::Scalar)
    ensures
        call_ensures(K::dot, (a, b), r),
        functional::<K>() ==> r == dot_of::<K>(a, b),
{
    reveal(functional);
    K::dot(a, b)
}

/// The smallest angle between `a` and `b`, in radians.
pub fn angle<K: Kernel>(a: Vector3<K::Scalar>, b: Vector3<K::Scalar>) -> (r: K::Scalar)
    ensures
        call_ensures(K::angle, (a, b), r),
        functional::<K>() ==> r == angle_of::<K>(a, b),
{
    reveal(functional);
    K::angle(a, b)
}

/// `a` scaled to length one.
pub fn normalize<K: Kernel>(a: Vector3<K::Scalar>) -> (r: Vector3<K::Scalar>)
    ensures
        call_ensures(K::normalize, (a,), r),
        functional::<K>() ==> r == normalize_of::<K>(a),
{
    reveal(functional);
    K::normalize(a)
}

/// `a` with each component multiplied by `s`.
pub fn scale<K: Kernel>(a: Vector3<K::Scalar>, s: K::Scalar) -> (r: Vector3<K::Scalar>)
    ensures
        call_ensures(K::scale, (a, s), r),
        functional::<K>() ==> r == scale_of::<K>(a, s),
{
    reveal(functional);
    K::scale(a, s)
}

/// The point `p` moved by `v`.
pub fn translate<K: Kernel>(p: Point3<K::Scalar>, v: Vector3<K::Scalar>) -> (r: Point3<K::Scalar>)
    ensures
        call_ensures(K::translate, (p, v), r),
        functional::<K>() ==> r == translate_of::<K>(p, v),
{
    reveal(functional);
    K::translate(p, v)
}

/// The point halfway between `a` and `b`.
pub fn center<K: Kernel>(a: Point3<K::Scalar>, b: Point3<K::Scalar>) -> (r: Point3<K::Scalar>)
    ensures
        call_ensures(K::center, (a, b), r),
        functional::<K>() ==> r == center_of::<K>(a, b),
{
    reveal(functional);
    K::center(a, b)
}

/// The smallest rotation that turns `a` into the direction of `b`, where
/// the kernel finds exactly one. It finds none where `a` and `b` point
/// opposite ways.
pub fn rotation_between<K: Kernel>(a: Vector3<K::Scalar>, b: Vector3<K::Scalar>) -> (r: Option<
    Rotation<K::Scalar>,
>)
    ensures
        call_ensures(K::rotation_between, (a, b), r),
        functional::<K>() ==> r == rotation_between_of::<K>(a, b),
{
    reveal(functional);
    K::rotation_between(a, b)
}

/// The rotation by `angle` radians about the direction of `axis`.
pub fn axis_angle<K: Kernel>(axis: Vector3<K::Scalar>, angle: K::Scalar) -> (r: Rotation<
    K::Scalar,
>)
    ensures
        call_ensures(K::axis_angle, (axis, angle), r),
        functional::<K>() ==> r == axis_angle_of::<K>(axis, angle),
{
    reveal(functional);
    K::axis_angle(axis, angle)
}

/// The point `p` turned by `q` about the origin.
pub fn rotate<K: Kernel>(q: Rotation<K::Scalar>, p: Point3<K::Scalar>) -> (r: Point3<K::Scalar>)
    ensures
        call_ensures(K::rotate, (q, p), r),
        functional::<K>() ==> r == rotate_of::<K>(q, p),
{
    reveal(functional);
    K::rotate(q, p)
}

/// The scalar zero.
pub open spec fn zero_of<K: Kernel>() -> K::Scalar {
    from_int_of::<K>(0)
}

/// The origin of the coordinate system.
pub open spec fn origin_of<K: Kernel>() -> Point3<K::Scalar> {
    Point3 { x: zero_of::<K>(), y: zero_of::<K>(), z: zero_of::<K>() }
}

/// The unit vector along the x axis.
pub open spec fn x_axis_of<K: Kernel>() -> Vector3<K::Scalar> {
    Vector3 { x: from_int_of::<K>(1), y: zero_of::<K>(), z: zero_of::<K>() }
}

/// The unit vector along the z axis.
pub open spec fn z_axis_of<K: Kernel>() -> Vector3<K::Scalar> {
    Vector3 { x: zero_of::<K>(), y: zero_of::<K>(), z: from_int_of::<K>(1) }
}

/// `v` pointing the other way: `v` scaled by minus one.
pub open spec fn reversed_of<K: Kernel>(v: Vector3<K::Scalar>) -> Vector3<K::Scalar> {
    scale_of::<K>(v, from_int_of::<K>(-1i32))
}

/// The origin of the coordinate system.
pub fn origin<K: Kernel>() -> (r: Point3<K::Scalar>)
    ensures
        functional::<K>() ==> r == origin_of::<K>(),
{
    Point3 { x: from_int::<K>(0), y: from_int::<K>(0), z: from_int::<K>(0) }
}

/// The unit vector along the x axis.
pub fn x_axis<K: Kernel>() -> (r: Vector3<K::Scalar>)
    ensures
        functional::<K>() ==> r == x_axis_of::<K>(),
{
    Vector3 { x: from_int::<K>(1), y: from_int::<K>(0), z: from_int::<K>(0) }
}

/// The unit vector along the z axis.
pub fn z_axis<K: Kernel>() -> (r: Vector3<K::Scalar>)
    ensures
        functional::<K>() ==> r == z_axis_of::<K>(),
{
    Vector3 { x: from_int::<K>(0), y: from_int::<K>(0), z: from_int::<K>(1) }
}

/// `v` pointing the other way.
pub fn reversed<K: Kernel>(v: Vector3<K::Scalar>) -> (r: Vector3<K::Scalar>)
    ensures
        functional::<K>() ==> r == reversed_of::<K>(v),
{
    scale::<K>(v, from_int::<K>(-1))
}

} // verus!
