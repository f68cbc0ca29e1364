use vstd::prelude::*;

verus! {

use crate::fixed::{
    Scalar, fx_abs, fx_add, fx_sub, fx_neg, fx_mul, fx_div, fx_sqrt, fx_approx_eq, SCALE, BOUND,
    EPSILON, lemma_fx_mul_double, lemma_fx_mul_error, lemma_fx_mul_zero, lemma_tdiv_error,
    tdiv,
};

/// Mathematical image of a tuple: four unit counts.
pub ghost struct TupleView {
    pub x: int,
    pub y: int,
    pub z: int,
    pub w: int,
}

impl TupleView {
    /// A point carries a one in its fourth slot.
    pub open spec fn is_point(self) -> bool {
        self.w == SCALE as int
    }

    /// A vector carries a zero in its fourth slot.
    pub open spec fn is_vector(self) -> bool {
        self.w == 0
    }
}

/// Componentwise sum.
pub open spec fn tv_add(a: TupleView, b: TupleView) -> TupleView {
    TupleView {
        x: fx_add(a.x, b.x),
        y: fx_add(a.y, b.y),
        z: fx_add(a.z, b.z),
        w: fx_add(a.w, b.w),
    }
}

/// Componentwise difference.
pub open spec fn tv_sub(a: TupleView, b: TupleView) -> TupleView {
    TupleView {
        x: fx_sub(a.x, b.x),
        y: fx_sub(a.y, b.y),
        z: fx_sub(a.z, b.z),
        w: fx_sub(a.w, b.w),
    }
}

/// Componentwise negation.
pub open spec fn tv_neg(a: TupleView) -> TupleView {
    TupleView { x: fx_neg(a.x), y: fx_neg(a.y), z: fx_neg(a.z), w: fx_neg(a.w) }
}

/// Componentwise scaling.
pub open spec fn tv_scale(a: TupleView, s: int) -> TupleView {
    TupleView { x: fx_mul(a.x, s), y: fx_mul(a.y, s), z: fx_mul(a.z, s), w: fx_mul(a.w, s) }
}

/// Componentwise division by a scalar.
pub open spec fn tv_div(a: TupleView, s: int) -> TupleView {
    TupleView { x: fx_div(a.x, s), y: fx_div(a.y, s), z: fx_div(a.z, s), w: fx_div(a.w, s) }
}

/// Four-term inner product, summed left to right.
pub open spec fn tv_dot(a: TupleView, b: TupleView) -> int {
    fx_add(fx_add(fx_add(fx_mul(a.x, b.x), fx_mul(a.y, b.y)), fx_mul(a.z, b.z)), fx_mul(a.w, b.w))
}

/// Euclidean length of the spatial part.
pub open spec fn tv_magnitude(a: TupleView) -> int {
    fx_sqrt(fx_add(fx_add(fx_mul(a.x, a.x), fx_mul(a.y, a.y)), fx_mul(a.z, a.z)))
}

/// The unit vector along `a`; the zero vector stays zero.
pub open spec fn tv_normalize(a: TupleView) -> TupleView {
    let m = tv_magnitude(a);
    TupleView { x: fx_div(a.x, m), y: fx_div(a.y, m), z: fx_div(a.z, m), w: 0 }
}

/// Cross product of the spatial parts; the result is a vector.
pub open spec fn tv_cross(a: TupleView, b: TupleView) -> TupleView {
    TupleView {
        x: fx_sub(fx_mul(a.y, b.z), fx_mul(a.z, b.y)),
        y: fx_sub(fx_mul(a.z, b.x), fx_mul(a.x, b.z)),
        z: fx_sub(fx_mul(a.x, b.y), fx_mul(a.y, b.x)),
        w: 0,
    }
}

/// Reflection of `a` about the normal `n`.
pub open spec fn tv_reflect(a: TupleView, n: TupleView) -> TupleView {
    tv_sub(a, tv_scale(tv_scale(n, 2 * SCALE), tv_dot(a, n)))
}

/// Tolerance-based equality: spatial parts within the tolerance, fourth slot
/// exact.
pub open spec fn tv_approx_eq(a: TupleView, b: TupleView) -> bool {
    fx_approx_eq(a.x, b.x) && fx_approx_eq(a.y, b.y) && fx_approx_eq(a.z, b.z) && a.w == b.w
}

/// The origin point as a mathematical value.
pub open spec fn tv_origo() -> TupleView {
    TupleView { x: 0, y: 0, z: 0, w: SCALE as int }
}

/// The unit up vector as a mathematical value.
pub open spec fn tv_vector_y_up() -> TupleView {
    TupleView { x: 0, y: SCALE as int, z: 0, w: 0 }
}

/// An affine tuple: a point when `w` is one, a vector when `w` is zero.
#[derive(Debug, Copy, Clone)]
pub struct Tuple {
    pub x: Scalar,
    pub y: Scalar,
    pub z: Scalar,
    pub w: Scalar,
}

impl View for Tuple {
    type V = TupleView;

    open spec fn view(&self) -> TupleView {
        TupleView { x: self.x@, y: self.y@, z: self.z@, w: self.w@ }
    }
}

/// The origin point.
pub fn origo() -> (r: Tuple)
    ensures
        r@ == tv_origo(),
{
    Tuple::point(Scalar::zero(), Scalar::zero(), Scalar::zero())
}

/// The unit vector pointing up along the y axis.
pub fn vector_y_up() -> (r: Tuple)
    ensures
        r@ == tv_vector_y_up(),
{
    Tuple::vector(Scalar::zero(), Scalar::one(), Scalar::zero())
}

impl PartialEq for Tuple {
    fn eq(&self, other: &Tuple) -> (r: bool) {
        crate::fixed::Scalar::approx_eq(self.x, other.x)
            && crate::fixed::Scalar::approx_eq(self.y, other.y)
            && crate::fixed::Scalar::approx_eq(self.z, other.z)
            && self.w.units() == other.w.units()
    }
}

impl vstd::std_specs::cmp::PartialEqSpecImpl for Tuple {
    open spec fn obeys_eq_spec() -> bool {
        true
    }

    open spec fn eq_spec(&self, other: &Tuple) -> bool {
        tv_approx_eq(self@, other@)
    }
}

impl core::ops::Add for Tuple {
    type Output = Tuple;

    fn add(self, rhs: Tuple) -> (r: Tuple)
        ensures
            r@ == tv_add(self@, rhs@),
    {
        Tuple { x: self.x + rhs.x, y: self.y + rhs.y, z: self.z + rhs.z, w: self.w + rhs.w }
    }
}

impl vstd::std_specs::ops::AddSpecImpl for Tuple {
    open spec fn obeys_add_spec() -> bool {
        false
    }

    open spec fn add_req(self, rhs: Tuple) -> bool {
        true
    }

    open spec fn add_spec(self, rhs: Tuple) -> Tuple {
        arbitrary()
    }
}

impl core::ops::Sub for Tuple {
    type Output = Tuple;

    fn sub(self, rhs: Tuple) -> (r: Tuple)
        ensures
            r@ == tv_sub(self@, rhs@),
    {
        Tuple { x: self.x - rhs.x, y: self.y - rhs.y, z: self.z - rhs.z, w: self.w - rhs.w }
    }
}

impl vstd::std_specs::ops::SubSpecImpl for Tuple {
    open spec fn obeys_sub_spec() -> bool {
        false
    }

    open spec fn sub_req(self, rhs: Tuple) -> bool {
        true
    }

    open spec fn sub_spec(self, rhs: Tuple) -> Tuple {
        arbitrary()
    }
}

impl core::ops::Neg for Tuple {
    type Output = Tuple;

    fn neg(self) -> (r: Tuple)
        ensures
            r@ == tv_neg(self@),
    {
        Tuple { x: self.x.neg(), y: self.y.neg(), z: self.z.neg(), w: self.w.neg() }
    }
}

impl vstd::std_specs::ops::NegSpecImpl for Tuple {
    open spec fn obeys_neg_spec() -> bool {
        false
    }

    open spec fn neg_req(self) -> bool {
        true
    }

    open spec fn neg_spec(self) -> Tuple {
        arbitrary()
    }
}

impl core::ops::Mul<Scalar> for Tuple {
    type Output = Tuple;

    fn mul(self, rhs: Scalar) -> (r: Tuple)
        ensures
            r@ == tv_scale(self@, rhs@),
    {
        Tuple { x: self.x * rhs, y: self.y * rhs, z: self.z * rhs, w: self.w * rhs }
    }
}

impl vstd::std_specs::ops::MulSpecImpl<Scalar> for Tuple {
    open spec fn obeys_mul_spec() -> bool {
        false
    }

    open spec fn mul_req(self, rhs: Scalar) -> bool {
        true
    }

    open spec fn mul_spec(self, rhs: Scalar) -> Tuple {
        arbitrary()
    }
}

impl core::ops::Div<Scalar> for Tuple {
    type Output = Tuple;

    fn div(self, rhs: Scalar) -> (r: Tuple)
        ensures
            r@ == tv_div(self@, rhs@),
    {
        Tuple { x: self.x / rhs, y: self.y / rhs, z: self.z / rhs, w: self.w / rhs }
    }
}

impl vstd::std_specs::ops::DivSpecImpl<Scalar> for Tuple {
    open spec fn obeys_div_spec() -> bool {
        false
    }

    open spec fn div_req(self, rhs: Scalar) -> bool {
        true
    }

    open spec fn div_spec(self, rhs: Scalar) -> Tuple {
        arbitrary()
    }
}

impl Tuple {
    /// A tuple from its four components.
    pub fn new(x: Scalar, y: Scalar, z: Scalar, w: Scalar) -> (r: Tuple)
        ensures
            r@ == (TupleView { x: x@, y: y@, z: z@, w: w@ }),
    {
        Tuple { x, y, z, w }
    }

    /// A point at the given coordinates.
    pub fn point(x: Scalar, y: Scalar, z: Scalar) -> (r: Tuple)
        ensures
            r@ == (TupleView { x: x@, y: y@, z: z@, w: SCALE as int }),
            r@.is_point(),
    {
        Tuple::new(x, y, z, Scalar::one())
    }

    /// A vector with the given components.
    pub fn vector(x: Scalar, y: Scalar, z: Scalar) -> (r: Tuple)
        ensures
            r@ == (TupleView { x: x@, y: y@, z: z@, w: 0 }),
            r@.is_vector(),
    {
        Tuple::new(x, y, z, Scalar::zero())
    }

    /// True exactly when the fourth slot holds one.
    pub fn is_point(&self) -> (r: bool)
        ensures
            r == self@.is_point(),
    {
        self.w.units() == SCALE
    }

    /// True exactly when the fourth slot holds zero.
    pub fn is_vector(&self) -> (r: bool)
        ensures
            r == self@.is_vector(),
    {
        self.w.units() == 0
    }

    /// Euclidean length of the spatial part.
    pub fn magnitude(&self) -> (r: Scalar)
        ensures
            r@ == tv_magnitude(self@),
    {
        (self.x * self.x + self.y * self.y + self.z * self.z).sqrt()
    }

    /// The unit vector along `self`; a zero-length vector stays the zero
    /// vector, since fixed-point division by zero yields zero.  The
    /// direction is kept to one truncation per component (see
    /// `lemma_normalize_direction`); the result's length is within the
    /// comparison tolerance of one only while the magnitude stays well
    /// above the grid's resolution, a limit of the fixed-point model.
    pub fn normalize(&self) -> (r: Tuple)
        ensures
            r@ == tv_normalize(self@),
            r@.is_vector(),
    {
        let m = self.magnitude();
        Tuple::vector(self.x / m, self.y / m, self.z / m)
    }

    /// Inner product of all four components.
    pub fn dot(&self, t: &Tuple) -> (r: Scalar)
        ensures
            r@ == tv_dot(self@, t@),
    {
        self.x * t.x + self.y * t.y + self.z * t.z + self.w * t.w
    }

    /// Cross product of the spatial parts.  Each product truncates to the
    /// grid once, so orthogonality to the factors holds within the
    /// comparison tolerance only while the components stay at scene scale
    /// (see `lemma_cross_orthogonal`).
    pub fn cross(&self, t: &Tuple) -> (r: Tuple)
        ensures
            r@ == tv_cross(self@, t@),
    {
        Tuple::vector(
            self.y * t.z - self.z * t.y,
            self.z * t.x - self.x * t.z,
            self.x * t.y - self.y * t.x,
        )
    }

    /// Reflect `self` about the given surface normal.  The products
    /// truncate to the grid, so reflecting twice restores a vector only up
    /// to an error that grows with the component size and with the normal's
    /// distance from unit length (see `lemma_reflect_involution`).
    pub fn reflect(&self, normal: Tuple) -> (r: Tuple)
        ensures
            r@ == tv_reflect(self@, normal@),
    {
        *self - normal * Scalar::from_int(2) * self.dot(&normal)
    }
}


/// Normalizing preserves the direction up to one truncation per component:
/// on a scene-scale domain (components up to a thousand, magnitude at least
/// a thousandth), each spatial component of the result, multiplied back by
/// the magnitude, reproduces the scaled input component to within one
/// magnitude's worth of units.  Accuracy of the result's own length follows
/// the same grid: it degrades as the magnitude approaches the resolution,
/// a limit of the fixed-point model rather than of the algorithm.
pub proof fn lemma_normalize_direction(v: TupleView)
    requires
        fx_abs(v.x) <= 1000 * SCALE as int,
        fx_abs(v.y) <= 1000 * SCALE as int,
        fx_abs(v.z) <= 1000 * SCALE as int,
        tv_magnitude(v) >= SCALE as int / 1000,
    ensures
        tv_normalize(v).is_vector(),
        fx_abs(tv_normalize(v).x * tv_magnitude(v) - v.x * SCALE) < tv_magnitude(v),
        fx_abs(tv_normalize(v).y * tv_magnitude(v) - v.y * SCALE) < tv_magnitude(v),
        fx_abs(tv_normalize(v).z * tv_magnitude(v) - v.z * SCALE) < tv_magnitude(v),
{
    let m = tv_magnitude(v);
    lemma_normalize_component(v.x, m);
    lemma_normalize_component(v.y, m);
    lemma_normalize_component(v.z, m);
}

/// One component of a normalization: the clamp never engages on the
/// scene-scale domain, so only the single truncation remains.
proof fn lemma_normalize_component(a: int, m: int)
    requires
        fx_abs(a) <= 1000 * SCALE as int,
        m >= SCALE as int / 1000,
    ensures
        fx_abs(fx_div(a, m) * m - a * SCALE) < m,
{
    let q = tdiv(a * SCALE, m);
    lemma_tdiv_error(a * SCALE, m);
    assert(-(BOUND as int) <= q <= BOUND as int) by (nonlinear_arith)
        requires
            fx_abs(q * m - a * SCALE) < m,
            fx_abs(a) <= 1000 * SCALE as int,
            m >= SCALE as int / 1000,
            SCALE == 1_000_000_000,
            BOUND == 10_000_000_000_000_000_000,
    ;
}


/// The inner product of the spatial parts in exact integer arithmetic: the
/// reference point for the truncation-error statements below.
pub open spec fn tv_dot_exact(a: TupleView, b: TupleView) -> int {
    a.x * b.x + a.y * b.y + a.z * b.z
}

/// One axis of the orthogonality argument: a cross component is two
/// products and a subtraction, and multiplying it by a factor of the
/// original vector stays within a bounded distance of the exact term.
proof fn lemma_cross_axis(ma: int, mb: int, pa: int, pb: int, w: int)
    requires
        fx_abs(ma * (SCALE as int) - pa) < SCALE as int,
        fx_abs(mb * (SCALE as int) - pb) < SCALE as int,
        fx_abs(ma) <= 1_000_000_000_000_001,
        fx_abs(mb) <= 1_000_000_000_000_001,
        fx_abs(w) <= 1000 * SCALE as int,
    ensures
        fx_sub(ma, mb) == ma - mb,
        fx_abs(fx_mul(ma - mb, w)) <= 3_000_000_000_000_000_000,
        fx_abs(fx_mul(ma - mb, w) * (SCALE as int) * (SCALE as int) - (pa - pb) * w) <= (
        SCALE as int) * (SCALE as int) + 2 * (SCALE as int) * (1000 * SCALE as int),
{
    let s = SCALE as int;
    let c = ma - mb;
    let d = fx_mul(c, w);
    assert(fx_sub(ma, mb) == c);
    assert(fx_abs(c * s - (pa - pb)) < 2 * s);
    assert(2_000_000_000_000_002 * (1000 * s) + s <= (BOUND as int) * s) by (nonlinear_arith)
        requires
            s == 1_000_000_000,
            BOUND == 10_000_000_000_000_000_000,
    ;
    lemma_fx_mul_error(c, w, 2_000_000_000_000_002, 1000 * s);
    assert(fx_abs(d) <= 3_000_000_000_000_000_000) by (nonlinear_arith)
        requires
            fx_abs(d) * s <= 2_000_000_000_000_002 * (1000 * s) + s,
            s == 1_000_000_000,
    ;
    assert(d * s * s - (pa - pb) * w == (d * s - c * w) * s + (c * s - (pa - pb)) * w)
        by (nonlinear_arith);
    assert(fx_abs((d * s - c * w) * s) <= s * s) by (nonlinear_arith)
        requires
            fx_abs(d * s - c * w) < s,
            s == 1_000_000_000,
    ;
    assert(fx_abs((c * s - (pa - pb)) * w) <= 2 * s * (1000 * s)) by (nonlinear_arith)
        requires
            fx_abs(c * s - (pa - pb)) < 2 * s,
            fx_abs(w) <= 1000 * s,
            s == 1_000_000_000,
    ;
}

/// The cross product is orthogonal to its first factor within the
/// comparison tolerance, as long as the components stay at scene scale
/// (up to a thousand in magnitude): the six products each truncate less
/// than one grid unit, and the exact cross product cancels precisely.
pub proof fn lemma_cross_orthogonal(a: TupleView, b: TupleView)
    requires
        fx_abs(a.x) <= 1000 * SCALE as int,
        fx_abs(a.y) <= 1000 * SCALE as int,
        fx_abs(a.z) <= 1000 * SCALE as int,
        fx_abs(b.x) <= 1000 * SCALE as int,
        fx_abs(b.y) <= 1000 * SCALE as int,
        fx_abs(b.z) <= 1000 * SCALE as int,
    ensures
        fx_abs(tv_dot(tv_cross(a, b), a)) < EPSILON as int,
{
    let s = SCALE as int;
    let cap = 1000 * s;

    assert(cap * cap + s <= (BOUND as int) * s) by (nonlinear_arith)
        requires
            cap == 1000 * s,
            s == 1_000_000_000,
            BOUND == 10_000_000_000_000_000_000,
    ;
    let m_yz = fx_mul(a.y, b.z);
    let m_zy = fx_mul(a.z, b.y);
    let m_zx = fx_mul(a.z, b.x);
    let m_xz = fx_mul(a.x, b.z);
    let m_xy = fx_mul(a.x, b.y);
    let m_yx = fx_mul(a.y, b.x);
    lemma_fx_mul_error(a.y, b.z, cap, cap);
    lemma_fx_mul_error(a.z, b.y, cap, cap);
    lemma_fx_mul_error(a.z, b.x, cap, cap);
    lemma_fx_mul_error(a.x, b.z, cap, cap);
    lemma_fx_mul_error(a.x, b.y, cap, cap);
    lemma_fx_mul_error(a.y, b.x, cap, cap);
    assert(fx_abs(m_yz) <= 1_000_000_000_000_001 && fx_abs(m_zy) <= 1_000_000_000_000_001
        && fx_abs(m_zx) <= 1_000_000_000_000_001 && fx_abs(m_xz) <= 1_000_000_000_000_001
        && fx_abs(m_xy) <= 1_000_000_000_000_001 && fx_abs(m_yx) <= 1_000_000_000_000_001)
        by (nonlinear_arith)
        requires
            fx_abs(m_yz) * s <= cap * cap + s,
            fx_abs(m_zy) * s <= cap * cap + s,
            fx_abs(m_zx) * s <= cap * cap + s,
            fx_abs(m_xz) * s <= cap * cap + s,
            fx_abs(m_xy) * s <= cap * cap + s,
            fx_abs(m_yx) * s <= cap * cap + s,
            s == 1_000_000_000,
            cap == 1000 * s,
    ;

    let tx = a.y * b.z - a.z * b.y;
    let ty = a.z * b.x - a.x * b.z;
    let tz = a.x * b.y - a.y * b.x;
    lemma_cross_axis(m_yz, m_zy, a.y * b.z, a.z * b.y, a.x);
    lemma_cross_axis(m_zx, m_xz, a.z * b.x, a.x * b.z, a.y);
    lemma_cross_axis(m_xy, m_yx, a.x * b.y, a.y * b.x, a.z);

    let c = tv_cross(a, b);
    let dx = fx_mul(c.x, a.x);
    let dy = fx_mul(c.y, a.y);
    let dz = fx_mul(c.z, a.z);
    lemma_fx_mul_zero(a.w);
    // the fold never clamps at these sizes, so the dot is the plain sum
    assert(tv_dot(c, a) == dx + dy + dz);

    assert(tx * a.x + ty * a.y + tz * a.z == 0) by (nonlinear_arith)
        requires
            tx == a.y * b.z - a.z * b.y,
            ty == a.z * b.x - a.x * b.z,
            tz == a.x * b.y - a.y * b.x,
    ;
    let slack = s * s + 2 * s * (1000 * s);
    assert(fx_abs((dx + dy + dz) * s * s) <= 3 * slack);
    assert(fx_abs(dx + dy + dz) < EPSILON as int) by (nonlinear_arith)
        requires
            fx_abs((dx + dy + dz) * s * s) <= 3 * slack,
            slack == s * s + 2 * s * (1000 * s),
            s == 1_000_000_000,
            EPSILON == 10_000,
    ;
}


/// One reflection in fixed point stays within a few grid units of the exact
/// rational reflection: for vectors at scene scale about a near-unit normal,
/// each spatial component satisfies
/// `r_i * S * S == v_i * S * S - 2 * n_i * (v . n)` up to `15 * S * S`.
pub proof fn lemma_reflect_error(v: TupleView, n: TupleView)
    requires
        v.w == 0,
        n.w == 0,
        fx_abs(v.x) <= 2000 * SCALE as int,
        fx_abs(v.y) <= 2000 * SCALE as int,
        fx_abs(v.z) <= 2000 * SCALE as int,
        fx_abs(n.x) <= 2 * SCALE as int,
        fx_abs(n.y) <= 2 * SCALE as int,
        fx_abs(n.z) <= 2 * SCALE as int,
    ensures
        tv_reflect(v, n).w == 0,
        fx_abs(
            tv_reflect(v, n).x * (SCALE as int) * (SCALE as int) - (v.x * (SCALE as int) * (
            SCALE as int) - 2 * n.x * tv_dot_exact(v, n)),
        ) <= 15 * (SCALE as int) * (SCALE as int),
        fx_abs(
            tv_reflect(v, n).y * (SCALE as int) * (SCALE as int) - (v.y * (SCALE as int) * (
            SCALE as int) - 2 * n.y * tv_dot_exact(v, n)),
        ) <= 15 * (SCALE as int) * (SCALE as int),
        fx_abs(
            tv_reflect(v, n).z * (SCALE as int) * (SCALE as int) - (v.z * (SCALE as int) * (
            SCALE as int) - 2 * n.z * tv_dot_exact(v, n)),
        ) <= 15 * (SCALE as int) * (SCALE as int),
{
    let s = SCALE as int;
    let p = tv_dot_exact(v, n);
    let d = tv_dot(v, n);

    // the truncated dot product: three products, one exact zero, exact folds
    assert((2000 * s) * (2 * s) + s <= (BOUND as int) * s) by (nonlinear_arith)
        requires
            s == 1_000_000_000,
            BOUND == 10_000_000_000_000_000_000,
    ;
    lemma_fx_mul_error(v.x, n.x, 2000 * s, 2 * s);
    lemma_fx_mul_error(v.y, n.y, 2000 * s, 2 * s);
    lemma_fx_mul_error(v.z, n.z, 2000 * s, 2 * s);
    lemma_fx_mul_zero(v.w);
    assert(fx_abs(fx_mul(v.x, n.x)) <= 4001 * s && fx_abs(fx_mul(v.y, n.y)) <= 4001 * s
        && fx_abs(fx_mul(v.z, n.z)) <= 4001 * s) by (nonlinear_arith)
        requires
            fx_abs(fx_mul(v.x, n.x)) * s <= (2000 * s) * (2 * s) + s,
            fx_abs(fx_mul(v.y, n.y)) * s <= (2000 * s) * (2 * s) + s,
            fx_abs(fx_mul(v.z, n.z)) * s <= (2000 * s) * (2 * s) + s,
            s == 1_000_000_000,
    ;
    assert(d == fx_mul(v.x, n.x) + fx_mul(v.y, n.y) + fx_mul(v.z, n.z));
    assert(fx_abs(d * s - p) < 3 * s);
    assert(fx_abs(d) <= 12003 * s + 3);

    // doubling the normal is exact at these sizes
    lemma_fx_mul_double(n.x);
    lemma_fx_mul_double(n.y);
    lemma_fx_mul_double(n.z);
    lemma_fx_mul_double(n.w);

    lemma_reflect_component(v.x, n.x, d, p);
    lemma_reflect_component(v.y, n.y, d, p);
    lemma_reflect_component(v.z, n.z, d, p);

    // the fourth slot: doubling zero and multiplying by the dot stays zero
    lemma_fx_mul_zero(d);
}

/// One component of a reflection: the subtraction is exact and the one
/// remaining truncation is bounded.
proof fn lemma_reflect_component(vi: int, ni: int, d: int, p: int)
    requires
        fx_abs(vi) <= 2000 * SCALE as int,
        fx_abs(ni) <= 2 * SCALE as int,
        fx_abs(d) <= 12003 * SCALE as int + 3,
        fx_abs(d * (SCALE as int) - p) < 3 * (SCALE as int),
    ensures
        fx_abs(
            fx_sub(vi, fx_mul(fx_mul(ni, 2 * SCALE as int), d)) * (SCALE as int) * (SCALE as int)
                - (vi * (SCALE as int) * (SCALE as int) - 2 * ni * p),
        ) <= 15 * (SCALE as int) * (SCALE as int),
{
    let s = SCALE as int;
    lemma_fx_mul_double(ni);
    let t = fx_mul(2 * ni, d);
    assert((4 * s) * (12003 * s + 3) + s <= (BOUND as int) * s) by (nonlinear_arith)
        requires
            s == 1_000_000_000,
            BOUND == 10_000_000_000_000_000_000,
    ;
    lemma_fx_mul_error(2 * ni, d, 4 * s, 12003 * s + 3);
    assert(fx_abs(t) <= 50_000 * s) by (nonlinear_arith)
        requires
            fx_abs(t) * s <= (4 * s) * (12003 * s + 3) + s,
            s == 1_000_000_000,
    ;
    let r = fx_sub(vi, t);
    assert(r == vi - t);
    // error decomposition: one truncation at the product, one at the dot
    assert(r * s * s - (vi * s * s - 2 * ni * p) == -(t * s - (2 * ni) * d) * s - 2 * ni * (d * s
        - p)) by (nonlinear_arith)
        requires
            r == vi - t,
    ;
    assert(fx_abs(-(t * s - (2 * ni) * d) * s) <= s * s) by (nonlinear_arith)
        requires
            fx_abs(t * s - (2 * ni) * d) < s,
            s == 1_000_000_000,
    ;
    assert(fx_abs(2 * ni * (d * s - p)) <= 12 * s * s) by (nonlinear_arith)
        requires
            fx_abs(ni) <= 2 * s,
            fx_abs(d * s - p) < 3 * s,
            s == 1_000_000_000,
    ;
}


/// Reflecting twice about a near-unit normal restores a scene-scale vector
/// within the comparison tolerance: the exact reflection is an involution,
/// and the truncations and the normal's own grid error stay inside the
/// budget.  The bounds are machine limits of the fixed-point model: the
/// error grows with the vector's size and with the normal's distance from
/// unit length.
#[verifier::rlimit(100)]
pub proof fn lemma_reflect_involution(v: TupleView, n: TupleView)
    requires
        v.w == 0,
        n.w == 0,
        fx_abs(v.x) <= 10 * SCALE as int,
        fx_abs(v.y) <= 10 * SCALE as int,
        fx_abs(v.z) <= 10 * SCALE as int,
        fx_abs(n.x) <= 2 * SCALE as int,
        fx_abs(n.y) <= 2 * SCALE as int,
        fx_abs(n.z) <= 2 * SCALE as int,
        fx_abs(tv_dot_exact(n, n) - (SCALE as int) * (SCALE as int)) <= 10 * SCALE as int,
    ensures
        tv_approx_eq(tv_reflect(tv_reflect(v, n), n), v),
{
    let s = SCALE as int;
    let p = tv_dot_exact(v, n);
    let nn = tv_dot_exact(n, n);
    let r = tv_reflect(v, n);
    lemma_reflect_error(v, n);
    let ex = r.x * s * s - (v.x * s * s - 2 * n.x * p);
    let ey = r.y * s * s - (v.y * s * s - 2 * n.y * p);
    let ez = r.z * s * s - (v.z * s * s - 2 * n.z * p);

    assert(fx_abs(v.x * n.x) <= 20 * s * s) by (nonlinear_arith)
        requires
            fx_abs(v.x) <= 10 * s,
            fx_abs(n.x) <= 2 * s,
    ;
    assert(fx_abs(v.y * n.y) <= 20 * s * s) by (nonlinear_arith)
        requires
            fx_abs(v.y) <= 10 * s,
            fx_abs(n.y) <= 2 * s,
    ;
    assert(fx_abs(v.z * n.z) <= 20 * s * s) by (nonlinear_arith)
        requires
            fx_abs(v.z) <= 10 * s,
            fx_abs(n.z) <= 2 * s,
    ;
    assert(fx_abs(p) <= 60 * s * s);

    assert(fx_abs(r.x) <= 251 * s) by (nonlinear_arith)
        requires
            r.x * s * s == v.x * s * s - 2 * n.x * p + ex,
            fx_abs(ex) <= 15 * s * s,
            fx_abs(p) <= 60 * s * s,
            fx_abs(v.x) <= 10 * s,
            fx_abs(n.x) <= 2 * s,
            s == 1_000_000_000,
    ;
    assert(fx_abs(r.y) <= 251 * s) by (nonlinear_arith)
        requires
            r.y * s * s == v.y * s * s - 2 * n.y * p + ey,
            fx_abs(ey) <= 15 * s * s,
            fx_abs(p) <= 60 * s * s,
            fx_abs(v.y) <= 10 * s,
            fx_abs(n.y) <= 2 * s,
            s == 1_000_000_000,
    ;
    assert(fx_abs(r.z) <= 251 * s) by (nonlinear_arith)
        requires
            r.z * s * s == v.z * s * s - 2 * n.z * p + ez,
            fx_abs(ez) <= 15 * s * s,
            fx_abs(p) <= 60 * s * s,
            fx_abs(v.z) <= 10 * s,
            fx_abs(n.z) <= 2 * s,
            s == 1_000_000_000,
    ;

    let pp = tv_dot_exact(r, n);
    let r2 = tv_reflect(r, n);
    lemma_reflect_error(r, n);
    let gx = r2.x * s * s - (r.x * s * s - 2 * n.x * pp);
    let gy = r2.y * s * s - (r.y * s * s - 2 * n.y * pp);
    let gz = r2.z * s * s - (r.z * s * s - 2 * n.z * pp);

    // the second dot in terms of the first: multiply each component's
    // relation by its normal component, then sum
    assert(r.x * n.x * (s * s) == v.x * n.x * (s * s) - 2 * n.x * p * n.x + ex * n.x)
        by (nonlinear_arith)
        requires
            r.x * s * s == v.x * s * s - 2 * n.x * p + ex,
    ;
    assert(r.y * n.y * (s * s) == v.y * n.y * (s * s) - 2 * n.y * p * n.y + ey * n.y)
        by (nonlinear_arith)
        requires
            r.y * s * s == v.y * s * s - 2 * n.y * p + ey,
    ;
    assert(r.z * n.z * (s * s) == v.z * n.z * (s * s) - 2 * n.z * p * n.z + ez * n.z)
        by (nonlinear_arith)
        requires
            r.z * s * s == v.z * s * s - 2 * n.z * p + ez,
    ;
    assert(pp * (s * s) == r.x * n.x * (s * s) + r.y * n.y * (s * s) + r.z * n.z * (s * s))
        by (nonlinear_arith)
        requires
            pp == r.x * n.x + r.y * n.y + r.z * n.z,
    ;
    assert(p * (s * s) == v.x * n.x * (s * s) + v.y * n.y * (s * s) + v.z * n.z * (s * s))
        by (nonlinear_arith)
        requires
            p == v.x * n.x + v.y * n.y + v.z * n.z,
    ;
    assert(2 * nn * p == 2 * n.x * p * n.x + 2 * n.y * p * n.y + 2 * n.z * p * n.z)
        by (nonlinear_arith)
        requires
            nn == n.x * n.x + n.y * n.y + n.z * n.z,
    ;
    let esum = ex * n.x + ey * n.y + ez * n.z;
    assert(pp * (s * s) == p * (s * s) - 2 * nn * p + esum);

    assert(fx_abs(ex * n.x) <= 30 * s * s * s) by (nonlinear_arith)
        requires
            fx_abs(ex) <= 15 * s * s,
            fx_abs(n.x) <= 2 * s,
    ;
    assert(fx_abs(ey * n.y) <= 30 * s * s * s) by (nonlinear_arith)
        requires
            fx_abs(ey) <= 15 * s * s,
            fx_abs(n.y) <= 2 * s,
    ;
    assert(fx_abs(ez * n.z) <= 30 * s * s * s) by (nonlinear_arith)
        requires
            fx_abs(ez) <= 15 * s * s,
            fx_abs(n.z) <= 2 * s,
    ;
    assert(fx_abs(esum) <= 90 * s * s * s);

    assert(fx_abs((p + pp) * (s * s)) <= 1290 * s * s * s) by (nonlinear_arith)
        requires
            pp * (s * s) == p * (s * s) - 2 * nn * p + esum,
            fx_abs(esum) <= 90 * s * s * s,
            fx_abs(nn - s * s) <= 10 * s,
            fx_abs(p) <= 60 * s * s,
            s == 1_000_000_000,
    ;
    assert(fx_abs(p + pp) <= 1290 * s) by (nonlinear_arith)
        requires
            fx_abs((p + pp) * (s * s)) <= 1290 * s * s * s,
            s == 1_000_000_000,
    ;

    assert(r2.x * s * s - v.x * s * s == -2 * n.x * (p + pp) + ex + gx) by (nonlinear_arith)
        requires
            r.x * s * s == v.x * s * s - 2 * n.x * p + ex,
            r2.x * s * s == r.x * s * s - 2 * n.x * pp + gx,
    ;
    assert(r2.y * s * s - v.y * s * s == -2 * n.y * (p + pp) + ey + gy) by (nonlinear_arith)
        requires
            r.y * s * s == v.y * s * s - 2 * n.y * p + ey,
            r2.y * s * s == r.y * s * s - 2 * n.y * pp + gy,
    ;
    assert(r2.z * s * s - v.z * s * s == -2 * n.z * (p + pp) + ez + gz) by (nonlinear_arith)
        requires
            r.z * s * s == v.z * s * s - 2 * n.z * p + ez,
            r2.z * s * s == r.z * s * s - 2 * n.z * pp + gz,
    ;
    lemma_involution_component(v.x, n.x, r2.x, ex, gx, p + pp);
    lemma_involution_component(v.y, n.y, r2.y, ey, gy, p + pp);
    lemma_involution_component(v.z, n.z, r2.z, ez, gz, p + pp);
}

/// One component of the double reflection: the exact parts cancel, the
/// bounded errors remain.
proof fn lemma_involution_component(vi: int, ni: int, r2i: int, ei: int, gi: int, psum: int)
    requires
        r2i * (SCALE as int) * (SCALE as int) - vi * (SCALE as int) * (SCALE as int) == -2 * ni
            * psum + ei + gi,
        fx_abs(ni) <= 2 * SCALE as int,
        fx_abs(ei) <= 15 * (SCALE as int) * (SCALE as int),
        fx_abs(gi) <= 15 * (SCALE as int) * (SCALE as int),
        fx_abs(psum) <= 1290 * SCALE as int,
    ensures
        fx_approx_eq(r2i, vi),
{
    let s = SCALE as int;
    assert(fx_abs(r2i - vi) < EPSILON as int) by (nonlinear_arith)
        requires
            r2i * s * s - vi * s * s == -2 * ni * psum + ei + gi,
            fx_abs(ni) <= 2 * s,
            fx_abs(ei) <= 15 * s * s,
            fx_abs(gi) <= 15 * s * s,
            fx_abs(psum) <= 1290 * s,
            s == 1_000_000_000,
            EPSILON == 10_000,
    ;
}

} // verus!
