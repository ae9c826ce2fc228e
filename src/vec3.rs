use vstd::prelude::*;
use vstd::std_specs::convert::TryFromSpec;

verus! {

/// A plain value holding three components of the same element type.
#[derive(Clone, Copy, Debug, PartialEq)]
pub struct Vec3<T> {
    pub x: T,
    pub y: T,
    pub z: T,
}

impl<T: Default> Vec3<T> {
    /// A vector whose three components are the element type's default value
    /// (zero for the numeric types).
    pub fn new() -> (r: Self)
        ensures
            call_ensures(T::default, (), r.x),
            call_ensures(T::default, (), r.y),
            call_ensures(T::default, (), r.z),
    {
        Vec3 { x: T::default(), y: T::default(), z: T::default() }
    }
}

impl<T: Copy> Vec3<T> {
    /// Broadcasts one value into all three components.
    pub fn splat(val: T) -> (r: Self)
        ensures
            r.x == val,
            r.y == val,
            r.z == val,
    {
        Vec3 { x: val, y: val, z: val }
    }
}

/// Broadcast construction: `Vec3::from(v)` holds `v` in every component.
impl<T: Copy> From<T> for Vec3<T> {
    fn from(val: T) -> (r: Self) {
        Vec3::splat(val)
    }
}

impl<T: Copy> vstd::std_specs::convert::FromSpecImpl<T> for Vec3<T> {
    open spec fn obeys_from_spec() -> bool {
        true
    }

    open spec fn from_spec(val: T) -> Self {
        Vec3 { x: val, y: val, z: val }
    }
}

/// Component-wise construction: `Vec3::from((a, b, c))` has `x == a`,
/// `y == b` and `z == c`.
impl<T> From<(T, T, T)> for Vec3<T> {
    fn from(t: (T, T, T)) -> (r: Self) {
        let (x, y, z) = t;
        Vec3 { x, y, z }
    }
}

impl<T> vstd::std_specs::convert::FromSpecImpl<(T, T, T)> for Vec3<T> {
    open spec fn obeys_from_spec() -> bool {
        true
    }

    open spec fn from_spec(t: (T, T, T)) -> Self {
        Vec3 { x: t.0, y: t.1, z: t.2 }
    }
}

/// The one way construction can fail: a source value that the element type
/// cannot represent.
#[derive(Clone, Copy, Debug, PartialEq, Eq)]
pub struct ConversionError;

/// The element-type value that `val` converts to, if the conversion succeeds.
pub open spec fn converted<T: TryFrom<U>, U>(val: U) -> Option<T> {
    match T::try_from_spec(val) {
        Ok(v) => Some(v),
        Err(_) => None,
    }
}

impl<T: Copy> Vec3<T> {
    /// Broadcasts a value of another numeric type, converted without loss; a
    /// value out of the element type's range is refused.
    pub fn try_splat<U>(val: U) -> (r: Result<Self, ConversionError>)
        where T: TryFrom<U>,
        ensures
            T::obeys_try_from_spec() ==> match converted::<T, U>(val) {
                Some(v) => r == Ok::<Self, ConversionError>(Vec3 { x: v, y: v, z: v }),
                None => r == Err::<Self, ConversionError>(ConversionError),
            },
    {
        match T::try_from(val) {
            Ok(v) => Ok(Vec3::splat(v)),
            Err(_) => Err(ConversionError),
        }
    }
}

impl<T> Vec3<T> {
    /// Builds a vector from three values of another numeric type, each
    /// converted without loss; if any is out of the element type's range the
    /// whole construction is refused.
    pub fn try_from_components<U>(t: (U, U, U)) -> (r: Result<Self, ConversionError>)
        where T: TryFrom<U>,
        ensures
            T::obeys_try_from_spec() ==> match (
                converted::<T, U>(t.0),
                converted::<T, U>(t.1),
                converted::<T, U>(t.2),
            ) {
                (Some(x), Some(y), Some(z)) => r == Ok::<Self, ConversionError>(Vec3 { x, y, z }),
                _ => r == Err::<Self, ConversionError>(ConversionError),
            },
    {
        let (a, b, c) = t;
        let x = match T::try_from(a) {
            Ok(v) => v,
            Err(_) => return Err(ConversionError),
        };
        let y = match T::try_from(b) {
            Ok(v) => v,
            Err(_) => return Err(ConversionError),
        };
        let z = match T::try_from(c) {
            Ok(v) => v,
            Err(_) => return Err(ConversionError),
        };
        Ok(Vec3 { x, y, z })
    }
}

impl View for Vec3<i64> {
    type V = (int, int, int);

    open spec fn view(&self) -> (int, int, int) {
        (self.x as int, self.y as int, self.z as int)
    }
}

/// Whether an integer is representable as an `i64`.
pub open spec fn fits_i64(n: int) -> bool {
    i64::MIN <= n <= i64::MAX
}

/// The dot product of two integer triples.
pub open spec fn dot_of(a: (int, int, int), b: (int, int, int)) -> int {
    a.0 * b.0 + a.1 * b.1 + a.2 * b.2
}

/// The cross product of two integer triples.
pub open spec fn cross_of(a: (int, int, int), b: (int, int, int)) -> (int, int, int) {
    (a.1 * b.2 - a.2 * b.1, a.2 * b.0 - a.0 * b.2, a.0 * b.1 - a.1 * b.0)
}

/// The component-wise negation of an integer triple.
pub open spec fn neg_of(a: (int, int, int)) -> (int, int, int) {
    (-a.0, -a.1, -a.2)
}

/// The triple `a` scaled by `k`.
pub open spec fn scaled(a: (int, int, int), k: int) -> (int, int, int) {
    (k * a.0, k * a.1, k * a.2)
}

/// A product of two `i64` values lies in `[-2^126 + 2^63, 2^126]`, so a sum
/// or difference of two or three of them fits in an `i128`.
proof fn lemma_i64_product_bounds(a: i64, b: i64)
    ensures
        -0x4000_0000_0000_0000_0000_0000_0000_0000 + 0x8000_0000_0000_0000 <= a as int * b as int
            <= 0x4000_0000_0000_0000_0000_0000_0000_0000,
{
    assert(-0x4000_0000_0000_0000_0000_0000_0000_0000 + 0x8000_0000_0000_0000 <= a as int * b as int
        <= 0x4000_0000_0000_0000_0000_0000_0000_0000) by (nonlinear_arith)
        requires
            -0x8000_0000_0000_0000 <= a as int <= 0x7fff_ffff_ffff_ffff,
            -0x8000_0000_0000_0000 <= b as int <= 0x7fff_ffff_ffff_ffff,
    ;
}

/// The difference of two products of `i64` values, computed without overflow.
fn cross_term(a: i64, b: i64, c: i64, d: i64) -> (r: i128)
    ensures
        r == a as int * b as int - c as int * d as int,
{
    proof {
        lemma_i64_product_bounds(a, b);
        lemma_i64_product_bounds(c, d);
    }
    (a as i128) * (b as i128) - (c as i128) * (d as i128)
}

impl Vec3<i64> {
    /// The dot product `x1*x2 + y1*y2 + z1*z2`, for operands whose exact
    /// result fits in an `i64`; intermediate terms never overflow.
    pub fn dot(self, other: Self) -> (r: i64)
        requires
            fits_i64(dot_of(self@, other@)),
        ensures
            r == dot_of(self@, other@),
    {
        proof {
            lemma_i64_product_bounds(self.x, other.x);
            lemma_i64_product_bounds(self.y, other.y);
            lemma_i64_product_bounds(self.z, other.z);
        }
        let d: i128 = (self.x as i128) * (other.x as i128) + (self.y as i128) * (other.y as i128)
            + (self.z as i128) * (other.z as i128);
        d as i64
    }

    /// The cross product, for operands whose exact components fit in an
    /// `i64`; intermediate terms never overflow.
    pub fn cross(self, other: Self) -> (r: Self)
        requires
            fits_i64(cross_of(self@, other@).0),
            fits_i64(cross_of(self@, other@).1),
            fits_i64(cross_of(self@, other@).2),
        ensures
            r@ == cross_of(self@, other@),
    {
        let x = cross_term(self.y, other.z, self.z, other.y);
        let y = cross_term(self.z, other.x, self.x, other.z);
        let z = cross_term(self.x, other.y, self.y, other.x);
        Vec3 { x: x as i64, y: y as i64, z: z as i64 }
    }
}

/// The dot product is symmetric: `v · w` equals `w · v` for all vectors.
pub proof fn lemma_dot_symmetric(v: Vec3<i64>, w: Vec3<i64>)
    ensures
        dot_of(v@, w@) == dot_of(w@, v@),
{
    let (a, b) = (v@, w@);
    assert(dot_of(a, b) == dot_of(b, a)) by (nonlinear_arith);
}

/// The cross product is anti-symmetric: each component of `v × w` is the
/// exact negation of the same component of `w × v`.
pub proof fn lemma_cross_antisymmetric(v: Vec3<i64>, w: Vec3<i64>)
    ensures
        cross_of(v@, w@) == neg_of(cross_of(w@, v@)),
{
    let (a, b) = (v@, w@);
    assert(a.1 * b.2 == b.2 * a.1 && a.2 * b.1 == b.1 * a.2) by (nonlinear_arith);
    assert(a.2 * b.0 == b.0 * a.2 && a.0 * b.2 == b.2 * a.0) by (nonlinear_arith);
    assert(a.0 * b.1 == b.1 * a.0 && a.1 * b.0 == b.0 * a.1) by (nonlinear_arith);
}

/// The cross product is perpendicular to both operands: its dot product with
/// either of them is zero.
pub proof fn lemma_cross_perpendicular(v: Vec3<i64>, w: Vec3<i64>)
    ensures
        dot_of(v@, cross_of(v@, w@)) == 0,
        dot_of(w@, cross_of(v@, w@)) == 0,
{
    let (a, b) = (v@, w@);
    assert(dot_of(a, cross_of(a, b)) == 0) by (nonlinear_arith);
    assert(dot_of(b, cross_of(a, b)) == 0) by (nonlinear_arith);
}

/// The cross product of parallel vectors is zero: `v × (k v)` vanishes for
/// every integer factor `k`.
pub proof fn lemma_cross_parallel(v: Vec3<i64>, w: Vec3<i64>, k: int)
    requires
        w@ == scaled(v@, k),
    ensures
        cross_of(v@, w@) == (0int, 0int, 0int),
{
    let a = v@;
    assert(cross_of(a, scaled(a, k)) == (0int, 0int, 0int)) by (nonlinear_arith);
}

} // verus!
