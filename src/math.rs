use vstd::prelude::*;

verus! {

/// Rust's division of integers, which rounds toward zero.
pub open spec fn trunc_div(a: int, b: int) -> int {
    let q = abs(a) / abs(b);
    if (a < 0) != (b < 0) {
        -q
    } else {
        q
    }
}

/// Rust's division agrees with the one of `int` on a non-negative dividend, is odd in
/// the dividend, and never makes the magnitude larger.
pub proof fn lemma_trunc_div(a: int, b: int)
    requires
        b != 0,
    ensures
        a >= 0 ==> trunc_div(a, b) == a / b,
        a < 0 ==> trunc_div(a, b) == -((-a) / b),
        trunc_div(a, b) == -trunc_div(-a, b),
        abs(trunc_div(a, b)) <= abs(a),
        abs(b) > 1 && a != 0 ==> abs(trunc_div(a, b)) < abs(a),
{
    if b < 0 {
        assert((-a) / b == -((-a) / (-b))) by (nonlinear_arith) requires b < 0, ;
        assert(a / b == -(a / (-b))) by (nonlinear_arith) requires b < 0, ;
    }
    assert(abs(a) / abs(b) <= abs(a)) by (nonlinear_arith) requires abs(b) >= 1, abs(a) >= 0, ;
    if abs(b) > 1 && a != 0 {
        assert(abs(a) / abs(b) < abs(a)) by (nonlinear_arith) requires abs(b) > 1, abs(a) > 0, ;
    }
}

pub open spec fn abs(a: int) -> int {
    if a < 0 {
        -a
    } else {
        a
    }
}

/// A numeric type whose values are integers in a fixed range.
pub trait Scalar: Copy + Sized {
    spec fn val(self) -> int;

    spec fn fits(v: int) -> bool;

    /// Every value of the type lies in its range.
    proof fn lemma_fits(self)
        ensures
            Self::fits(self.val()),
    ;

    fn zero() -> (r: Self)
        ensures
            r.val() == 0,
    ;

    fn plus(self, o: Self) -> (r: Self)
        requires
            Self::fits(self.val() + o.val()),
        ensures
            r.val() == self.val() + o.val(),
    ;

    fn minus(self, o: Self) -> (r: Self)
        requires
            Self::fits(self.val() - o.val()),
        ensures
            r.val() == self.val() - o.val(),
    ;

    fn times(self, o: Self) -> (r: Self)
        requires
            Self::fits(self.val() * o.val()),
        ensures
            r.val() == self.val() * o.val(),
    ;

    fn divided_by(self, o: Self) -> (r: Self)
        requires
            o.val() != 0,
            Self::fits(trunc_div(self.val(), o.val())),
        ensures
            r.val() == trunc_div(self.val(), o.val()),
    ;
}

impl Scalar for i8 {
    open spec fn val(self) -> int {
        self as int
    }

    open spec fn fits(v: int) -> bool {
        i8::MIN <= v <= i8::MAX
    }

    proof fn lemma_fits(self) {
    }

    fn zero() -> (r: Self) {
        0
    }

    fn plus(self, o: Self) -> (r: Self) {
        self + o
    }

    fn minus(self, o: Self) -> (r: Self) {
        self - o
    }

    fn times(self, o: Self) -> (r: Self) {
        self * o
    }

    fn divided_by(self, o: Self) -> (r: Self) {
        proof {
            lemma_trunc_div(self as int, o as int);
        }
        self / o
    }
}

impl Scalar for u8 {
    open spec fn val(self) -> int {
        self as int
    }

    open spec fn fits(v: int) -> bool {
        u8::MIN <= v <= u8::MAX
    }

    proof fn lemma_fits(self) {
    }

    fn zero() -> (r: Self) {
        0
    }

    fn plus(self, o: Self) -> (r: Self) {
        self + o
    }

    fn minus(self, o: Self) -> (r: Self) {
        self - o
    }

    fn times(self, o: Self) -> (r: Self) {
        self * o
    }

    fn divided_by(self, o: Self) -> (r: Self) {
        self / o
    }
}

impl Scalar for i16 {
    open spec fn val(self) -> int {
        self as int
    }

    open spec fn fits(v: int) -> bool {
        i16::MIN <= v <= i16::MAX
    }

    proof fn lemma_fits(self) {
    }

    fn zero() -> (r: Self) {
        0
    }

    fn plus(self, o: Self) -> (r: Self) {
        self + o
    }

    fn minus(self, o: Self) -> (r: Self) {
        self - o
    }

    fn times(self, o: Self) -> (r: Self) {
        self * o
    }

    fn divided_by(self, o: Self) -> (r: Self) {
        proof {
            lemma_trunc_div(self as int, o as int);
        }
        self / o
    }
}

impl Scalar for u16 {
    open spec fn val(self) -> int {
        self as int
    }

    open spec fn fits(v: int) -> bool {
        u16::MIN <= v <= u16::MAX
    }

    proof fn lemma_fits(self) {
    }

    fn zero() -> (r: Self) {
        0
    }

    fn plus(self, o: Self) -> (r: Self) {
        self + o
    }

    fn minus(self, o: Self) -> (r: Self) {
        self - o
    }

    fn times(self, o: Self) -> (r: Self) {
        self * o
    }

    fn divided_by(self, o: Self) -> (r: Self) {
        self / o
    }
}

impl Scalar for i32 {
    open spec fn val(self) -> int {
        self as int
    }

    open spec fn fits(v: int) -> bool {
        i32::MIN <= v <= i32::MAX
    }

    proof fn lemma_fits(self) {
    }

    fn zero() -> (r: Self) {
        0
    }

    fn plus(self, o: Self) -> (r: Self) {
        self + o
    }

    fn minus(self, o: Self) -> (r: Self) {
        self - o
    }

    fn times(self, o: Self) -> (r: Self) {
        self * o
    }

    fn divided_by(self, o: Self) -> (r: Self) {
        proof {
            lemma_trunc_div(self as int, o as int);
        }
        self / o
    }
}

impl Scalar for u32 {
    open spec fn val(self) -> int {
        self as int
    }

    open spec fn fits(v: int) -> bool {
        u32::MIN <= v <= u32::MAX
    }

    proof fn lemma_fits(self) {
    }

    fn zero() -> (r: Self) {
        0
    }

    fn plus(self, o: Self) -> (r: Self) {
        self + o
    }

    fn minus(self, o: Self) -> (r: Self) {
        self - o
    }

    fn times(self, o: Self) -> (r: Self) {
        self * o
    }

    fn divided_by(self, o: Self) -> (r: Self) {
        self / o
    }
}

impl Scalar for i64 {
    open spec fn val(self) -> int {
        self as int
    }

    open spec fn fits(v: int) -> bool {
        i64::MIN <= v <= i64::MAX
    }

    proof fn lemma_fits(self) {
    }

    fn zero() -> (r: Self) {
        0
    }

    fn plus(self, o: Self) -> (r: Self) {
        self + o
    }

    fn minus(self, o: Self) -> (r: Self) {
        self - o
    }

    fn times(self, o: Self) -> (r: Self) {
        self * o
    }

    fn divided_by(self, o: Self) -> (r: Self) {
        proof {
            lemma_trunc_div(self as int, o as int);
        }
        self / o
    }
}

impl Scalar for u64 {
    open spec fn val(self) -> int {
        self as int
    }

    open spec fn fits(v: int) -> bool {
        u64::MIN <= v <= u64::MAX
    }

    proof fn lemma_fits(self) {
    }

    fn zero() -> (r: Self) {
        0
    }

    fn plus(self, o: Self) -> (r: Self) {
        self + o
    }

    fn minus(self, o: Self) -> (r: Self) {
        self - o
    }

    fn times(self, o: Self) -> (r: Self) {
        self * o
    }

    fn divided_by(self, o: Self) -> (r: Self) {
        self / o
    }
}

impl Scalar for i128 {
    open spec fn val(self) -> int {
        self as int
    }

    open spec fn fits(v: int) -> bool {
        i128::MIN <= v <= i128::MAX
    }

    proof fn lemma_fits(self) {
    }

    fn zero() -> (r: Self) {
        0
    }

    fn plus(self, o: Self) -> (r: Self) {
        self + o
    }

    fn minus(self, o: Self) -> (r: Self) {
        self - o
    }

    fn times(self, o: Self) -> (r: Self) {
        self * o
    }

    fn divided_by(self, o: Self) -> (r: Self) {
        proof {
            lemma_trunc_div(self as int, o as int);
        }
        self / o
    }
}

impl Scalar for u128 {
    open spec fn val(self) -> int {
        self as int
    }

    open spec fn fits(v: int) -> bool {
        u128::MIN <= v <= u128::MAX
    }

    proof fn lemma_fits(self) {
    }

    fn zero() -> (r: Self) {
        0
    }

    fn plus(self, o: Self) -> (r: Self) {
        self + o
    }

    fn minus(self, o: Self) -> (r: Self) {
        self - o
    }

    fn times(self, o: Self) -> (r: Self) {
        self * o
    }

    fn divided_by(self, o: Self) -> (r: Self) {
        self / o
    }
}


/// Whether both components of a mathematical pair fit in `T`.
pub open spec fn fits2<T: Scalar>(v: (int, int)) -> bool {
    T::fits(v.0) && T::fits(v.1)
}

/// Whether all three components of a mathematical triple fit in `T`.
pub open spec fn fits3<T: Scalar>(v: (int, int, int)) -> bool {
    T::fits(v.0) && T::fits(v.1) && T::fits(v.2)
}

pub open spec fn add2(a: (int, int), b: (int, int)) -> (int, int) {
    (a.0 + b.0, a.1 + b.1)
}

pub open spec fn sub2(a: (int, int), b: (int, int)) -> (int, int) {
    (a.0 - b.0, a.1 - b.1)
}

/// A vector times a scalar on its right.
pub open spec fn scale2(a: (int, int), s: int) -> (int, int) {
    (a.0 * s, a.1 * s)
}

/// A scalar times a vector on its right.
pub open spec fn lscale2(s: int, a: (int, int)) -> (int, int) {
    (s * a.0, s * a.1)
}

pub open spec fn div2(a: (int, int), s: int) -> (int, int) {
    (trunc_div(a.0, s), trunc_div(a.1, s))
}

pub open spec fn add3(a: (int, int, int), b: (int, int, int)) -> (int, int, int) {
    (a.0 + b.0, a.1 + b.1, a.2 + b.2)
}

pub open spec fn sub3(a: (int, int, int), b: (int, int, int)) -> (int, int, int) {
    (a.0 - b.0, a.1 - b.1, a.2 - b.2)
}

pub open spec fn scale3(a: (int, int, int), s: int) -> (int, int, int) {
    (a.0 * s, a.1 * s, a.2 * s)
}

pub open spec fn lscale3(s: int, a: (int, int, int)) -> (int, int, int) {
    (s * a.0, s * a.1, s * a.2)
}

pub open spec fn div3(a: (int, int, int), s: int) -> (int, int, int) {
    (trunc_div(a.0, s), trunc_div(a.1, s), trunc_div(a.2, s))
}

/// Types with an additive identity.
pub trait ZeroExt: Sized {
    spec fn is_zero(&self) -> bool;

    fn zero() -> (r: Self)
        ensures
            r.is_zero(),
    ;
}

#[derive(Clone, Copy, Debug, PartialEq, Eq)]
pub struct Vec2<T> {
    pub x: T,
    pub y: T,
}

impl<T: Scalar> View for Vec2<T> {
    type V = (int, int);

    open spec fn view(&self) -> (int, int) {
        (self.x.val(), self.y.val())
    }
}

impl<T> Vec2<T> {
    pub fn new(x: T, y: T) -> (r: Self)
        ensures
            r.x == x,
            r.y == y,
    {
        Vec2 { x, y }
    }
}

impl<T: Scalar> Vec2<T> {
    pub fn add(self, rhs: Self) -> (r: Self)
        requires
            fits2::<T>(add2(self@, rhs@)),
        ensures
            r@ == add2(self@, rhs@),
    {
        Vec2 { x: self.x.plus(rhs.x), y: self.y.plus(rhs.y) }
    }

    pub fn sub(self, rhs: Self) -> (r: Self)
        requires
            fits2::<T>(sub2(self@, rhs@)),
        ensures
            r@ == sub2(self@, rhs@),
    {
        Vec2 { x: self.x.minus(rhs.x), y: self.y.minus(rhs.y) }
    }

    pub fn mul(self, rhs: T) -> (r: Self)
        requires
            fits2::<T>(scale2(self@, rhs.val())),
        ensures
            r@ == scale2(self@, rhs.val()),
    {
        Vec2 { x: self.x.times(rhs), y: self.y.times(rhs) }
    }

    /// The scalar on the left: `s * v`.
    pub fn scalar_mul(s: T, v: Self) -> (r: Self)
        requires
            fits2::<T>(lscale2(s.val(), v@)),
        ensures
            r@ == lscale2(s.val(), v@),
    {
        Vec2 { x: s.times(v.x), y: s.times(v.y) }
    }

    pub fn div(self, rhs: T) -> (r: Self)
        requires
            rhs.val() != 0,
            fits2::<T>(div2(self@, rhs.val())),
        ensures
            r@ == div2(self@, rhs.val()),
    {
        Vec2 { x: self.x.divided_by(rhs), y: self.y.divided_by(rhs) }
    }
}

impl<T: Scalar> ZeroExt for Vec2<T> {
    open spec fn is_zero(&self) -> bool {
        self@ == (0int, 0int)
    }

    fn zero() -> (r: Self) {
        Vec2 { x: T::zero(), y: T::zero() }
    }
}

#[derive(Clone, Copy, Debug, PartialEq, Eq)]
pub struct Vec3<T> {
    pub x: T,
    pub y: T,
    pub z: T,
}

impl<T: Scalar> View for Vec3<T> {
    type V = (int, int, int);

    open spec fn view(&self) -> (int, int, int) {
        (self.x.val(), self.y.val(), self.z.val())
    }
}

impl<T> Vec3<T> {
    pub fn new(x: T, y: T, z: T) -> (r: Self)
        ensures
            r.x == x,
            r.y == y,
            r.z == z,
    {
        Vec3 { x, y, z }
    }
}

impl<T: Scalar> Vec3<T> {
    pub fn add(self, rhs: Self) -> (r: Self)
        requires
            fits3::<T>(add3(self@, rhs@)),
        ensures
            r@ == add3(self@, rhs@),
    {
        Vec3 { x: self.x.plus(rhs.x), y: self.y.plus(rhs.y), z: self.z.plus(rhs.z) }
    }

    pub fn sub(self, rhs: Self) -> (r: Self)
        requires
            fits3::<T>(sub3(self@, rhs@)),
        ensures
            r@ == sub3(self@, rhs@),
    {
        Vec3 { x: self.x.minus(rhs.x), y: self.y.minus(rhs.y), z: self.z.minus(rhs.z) }
    }

    pub fn mul(self, rhs: T) -> (r: Self)
        requires
            fits3::<T>(scale3(self@, rhs.val())),
        ensures
            r@ == scale3(self@, rhs.val()),
    {
        Vec3 { x: self.x.times(rhs), y: self.y.times(rhs), z: self.z.times(rhs) }
    }

    /// The scalar on the left: `s * v`.
    pub fn scalar_mul(s: T, v: Self) -> (r: Self)
        requires
            fits3::<T>(lscale3(s.val(), v@)),
        ensures
            r@ == lscale3(s.val(), v@),
    {
        Vec3 { x: s.times(v.x), y: s.times(v.y), z: s.times(v.z) }
    }

    pub fn div(self, rhs: T) -> (r: Self)
        requires
            rhs.val() != 0,
            fits3::<T>(div3(self@, rhs.val())),
        ensures
            r@ == div3(self@, rhs.val()),
    {
        Vec3 { x: self.x.divided_by(rhs), y: self.y.divided_by(rhs), z: self.z.divided_by(rhs) }
    }
}

impl<T: Scalar> ZeroExt for Vec3<T> {
    open spec fn is_zero(&self) -> bool {
        self@ == (0int, 0int, 0int)
    }

    fn zero() -> (r: Self) {
        Vec3 { x: T::zero(), y: T::zero(), z: T::zero() }
    }
}

/// Addition commutes, and subtracting what was added gives the first vector back;
/// where the sum fits, the difference fits too, so the two calls can be chained.
pub proof fn lemma_add_commutes_and_inverts<T: Scalar>(a: Vec2<T>, b: Vec2<T>, c: Vec3<T>, d: Vec3<T>)
    ensures
        add2(a@, b@) == add2(b@, a@),
        sub2(add2(a@, b@), b@) == a@,
        fits2::<T>(sub2(add2(a@, b@), b@)),
        add3(c@, d@) == add3(d@, c@),
        sub3(add3(c@, d@), d@) == c@,
        fits3::<T>(sub3(add3(c@, d@), d@)),
{
    a.x.lemma_fits();
    a.y.lemma_fits();
    c.x.lemma_fits();
    c.y.lemma_fits();
    c.z.lemma_fits();
}

/// Multiplying by a scalar gives the same vector whichever side the scalar stands on.
pub proof fn lemma_scale_commutes<T: Scalar>(v: Vec2<T>, w: Vec3<T>, s: T)
    ensures
        scale2(v@, s.val()) == lscale2(s.val(), v@),
        scale3(w@, s.val()) == lscale3(s.val(), w@),
{
    assert(v@.0 * s.val() == s.val() * v@.0) by (nonlinear_arith);
    assert(v@.1 * s.val() == s.val() * v@.1) by (nonlinear_arith);
    assert(w@.0 * s.val() == s.val() * w@.0) by (nonlinear_arith);
    assert(w@.1 * s.val() == s.val() * w@.1) by (nonlinear_arith);
    assert(w@.2 * s.val() == s.val() * w@.2) by (nonlinear_arith);
}

/// The zero vector is the additive identity, on either side, and adding it to any
/// vector never leaves the range of `T`.
pub proof fn lemma_zero_identity<T: Scalar>(v: Vec2<T>, z: Vec2<T>, w: Vec3<T>, z3: Vec3<T>)
    requires
        z.is_zero(),
        z3.is_zero(),
    ensures
        add2(v@, z@) == v@,
        add2(z@, v@) == v@,
        fits2::<T>(add2(v@, z@)),
        add3(w@, z3@) == w@,
        add3(z3@, w@) == w@,
        fits3::<T>(add3(w@, z3@)),
{
    v.x.lemma_fits();
    v.y.lemma_fits();
    w.x.lemma_fits();
    w.y.lemma_fits();
    w.z.lemma_fits();
}

} // verus!
