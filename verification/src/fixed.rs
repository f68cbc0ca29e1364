use vstd::prelude::*;

verus! {

/// Number of fixed-point units that make up the real value one.
pub const SCALE: i128 = 1_000_000_000;

/// Largest magnitude (in units) a scalar may hold; values are clamped here.
pub const BOUND: i128 = 10_000_000_000_000_000_000;

/// Comparison tolerance in units: one part in a hundred thousand.
pub const EPSILON: i128 = 10_000;

/// Clamp a mathematical integer into the representable range of units.
pub open spec fn clip(x: int) -> int {
    if x > BOUND as int {
        BOUND as int
    } else if x < -(BOUND as int) {
        -(BOUND as int)
    } else {
        x
    }
}

/// Division truncated toward zero, as machine division performs it.
pub open spec fn tdiv(a: int, b: int) -> int
    recommends
        b != 0,
{
    if a == 0 {
        0
    } else if a > 0 && b > 0 {
        a / b
    } else if a < 0 && b < 0 {
        (a * -1) / (b * -1)
    } else if a < 0 {
        ((a * -1) / b) * -1
    } else {
        (a / (b * -1)) * -1
    }
}

/// Fixed-point addition: exact sum, clamped into range.
pub open spec fn fx_add(a: int, b: int) -> int {
    clip(a + b)
}

/// Fixed-point subtraction: exact difference, clamped into range.
pub open spec fn fx_sub(a: int, b: int) -> int {
    clip(a - b)
}

/// Fixed-point negation.
pub open spec fn fx_neg(a: int) -> int {
    clip(-a)
}

/// Fixed-point multiplication: exact product rescaled with truncation, clamped.
pub open spec fn fx_mul(a: int, b: int) -> int {
    clip(tdiv(a * b, SCALE as int))
}

/// Fixed-point division: the quotient rescaled with truncation, clamped.
/// Division by zero yields zero, so the operation is total.
pub open spec fn fx_div(a: int, b: int) -> int {
    if b == 0 {
        0
    } else {
        clip(tdiv(a * SCALE, b))
    }
}

/// Absolute value in units.
pub open spec fn fx_abs(a: int) -> int {
    if a >= 0 {
        a
    } else {
        -a
    }
}

/// True when the two values differ by less than the tolerance.
pub open spec fn fx_approx_eq(a: int, b: int) -> bool {
    fx_abs(a - b) < EPSILON as int
}

/// A real number held as a count of fixed-point units: `units` stands for the
/// real value `units / SCALE`.  Arithmetic clamps into `[-BOUND, BOUND]`, so
/// every operation is total and every reachable value is in range.
#[derive(Clone, Copy, Debug, PartialEq, Eq, Structural)]
pub struct Scalar {
    units: i128,
}

impl View for Scalar {
    type V = int;

    closed spec fn view(&self) -> int {
        self.units as int
    }
}

/// Clamp a raw unit count into the representable range.
fn clamp_units(x: i128) -> (r: i128)
    ensures
        r as int == clip(x as int),
{
    if x > BOUND {
        BOUND
    } else if x < -BOUND {
        -BOUND
    } else {
        x
    }
}

impl Scalar {
    /// Every scalar ever constructed satisfies this range bound.
    #[verifier::type_invariant]
    pub open spec fn inv(self) -> bool {
        -(BOUND as int) <= self@ <= BOUND as int
    }

    /// The scalar with the given count of units (thousand-millionths).
    pub fn from_units(n: i128) -> (r: Scalar)
        ensures
            r@ == clip(n as int),
    {
        Scalar { units: clamp_units(n) }
    }

    /// The scalar standing for the given whole number.
    pub fn from_int(i: i64) -> (r: Scalar)
        ensures
            r@ == clip(i * SCALE),
    {
        let wide: i128 = (i as i128).checked_mul(SCALE).unwrap();
        Scalar { units: clamp_units(wide) }
    }

    /// The scalar standing for the given pixel count.
    pub fn from_usize(u: usize) -> (r: Scalar)
        ensures
            r@ == clip(u * SCALE),
    {
        let wide: i128 = (u as i128).checked_mul(SCALE).unwrap();
        Scalar { units: clamp_units(wide) }
    }

    /// The raw unit count, for callers that must leave the fixed-point world.
    pub fn units(self) -> (r: i128)
        ensures
            r as int == self@,
    {
        self.units
    }

    /// Zero.
    pub fn zero() -> (r: Scalar)
        ensures
            r@ == 0,
    {
        Scalar { units: 0 }
    }

    /// One.
    pub fn one() -> (r: Scalar)
        ensures
            r@ == SCALE,
    {
        Scalar { units: SCALE }
    }

    /// The comparison tolerance as a scalar.
    pub fn epsilon() -> (r: Scalar)
        ensures
            r@ == EPSILON,
    {
        Scalar { units: EPSILON }
    }

    /// Absolute value.
    pub fn abs(self) -> (r: Scalar)
        ensures
            r@ == fx_abs(self@),
    {
        proof {
            use_type_invariant(self);
        }
        if self.units < 0 {
            Scalar { units: -self.units }
        } else {
            self
        }
    }

    /// True when `self` and `other` differ by less than the tolerance.
    pub fn approx_eq(self, other: Scalar) -> (r: bool)
        ensures
            r == fx_approx_eq(self@, other@),
    {
        proof {
            use_type_invariant(self);
            use_type_invariant(other);
        }
        let d = self.units - other.units;
        let a = if d < 0 {
            -d
        } else {
            d
        };
        a < EPSILON
    }
}

impl core::ops::Add for Scalar {
    type Output = Scalar;

    fn add(self, rhs: Scalar) -> (r: Scalar)
        ensures
            r@ == fx_add(self@, rhs@),
    {
        proof {
            use_type_invariant(self);
            use_type_invariant(rhs);
        }
        let s = self.units.checked_add(rhs.units).unwrap();
        Scalar { units: clamp_units(s) }
    }
}

impl vstd::std_specs::ops::AddSpecImpl for Scalar {
    open spec fn obeys_add_spec() -> bool {
        true
    }

    open spec fn add_req(self, rhs: Scalar) -> bool {
        true
    }

    closed spec fn add_spec(self, rhs: Scalar) -> Scalar {
        Scalar { units: fx_add(self@, rhs@) as i128 }
    }
}

impl core::ops::Sub for Scalar {
    type Output = Scalar;

    fn sub(self, rhs: Scalar) -> (r: Scalar)
        ensures
            r@ == fx_sub(self@, rhs@),
    {
        proof {
            use_type_invariant(self);
            use_type_invariant(rhs);
        }
        let s = self.units.checked_sub(rhs.units).unwrap();
        Scalar { units: clamp_units(s) }
    }
}

impl vstd::std_specs::ops::SubSpecImpl for Scalar {
    open spec fn obeys_sub_spec() -> bool {
        true
    }

    open spec fn sub_req(self, rhs: Scalar) -> bool {
        true
    }

    closed spec fn sub_spec(self, rhs: Scalar) -> Scalar {
        Scalar { units: fx_sub(self@, rhs@) as i128 }
    }
}

impl core::ops::Neg for Scalar {
    type Output = Scalar;

    fn neg(self) -> (r: Scalar)
        ensures
            r@ == fx_neg(self@),
    {
        proof {
            use_type_invariant(self);
        }
        Scalar { units: -self.units }
    }
}

impl vstd::std_specs::ops::NegSpecImpl for Scalar {
    open spec fn obeys_neg_spec() -> bool {
        true
    }

    open spec fn neg_req(self) -> bool {
        true
    }

    closed spec fn neg_spec(self) -> Scalar {
        Scalar { units: fx_neg(self@) as i128 }
    }
}

impl core::ops::Mul for Scalar {
    type Output = Scalar;

    fn mul(self, rhs: Scalar) -> (r: Scalar)
        ensures
            r@ == fx_mul(self@, rhs@),
    {
        proof {
            use_type_invariant(self);
            use_type_invariant(rhs);
            assert(-(BOUND as int) * (BOUND as int) <= self.units * rhs.units <= (BOUND as int)
                * (BOUND as int)) by (nonlinear_arith)
                requires
                    -(BOUND as int) <= self.units <= BOUND as int,
                    -(BOUND as int) <= rhs.units <= BOUND as int,
            ;
        }
        let p = self.units.checked_mul(rhs.units).unwrap();
        let q = p.checked_div(SCALE).unwrap();
        Scalar { units: clamp_units(q) }
    }
}

impl vstd::std_specs::ops::MulSpecImpl for Scalar {
    open spec fn obeys_mul_spec() -> bool {
        true
    }

    open spec fn mul_req(self, rhs: Scalar) -> bool {
        true
    }

    closed spec fn mul_spec(self, rhs: Scalar) -> Scalar {
        Scalar { units: fx_mul(self@, rhs@) as i128 }
    }
}

impl core::ops::Div for Scalar {
    type Output = Scalar;

    fn div(self, rhs: Scalar) -> (r: Scalar)
        ensures
            r@ == fx_div(self@, rhs@),
    {
        proof {
            use_type_invariant(self);
            use_type_invariant(rhs);
        }
        if rhs.units == 0 {
            return Scalar { units: 0 };
        }
        let p = self.units.checked_mul(SCALE).unwrap();
        let q = p.checked_div(rhs.units).unwrap();
        Scalar { units: clamp_units(q) }
    }
}

impl vstd::std_specs::ops::DivSpecImpl for Scalar {
    open spec fn obeys_div_spec() -> bool {
        true
    }

    open spec fn div_req(self, rhs: Scalar) -> bool {
        true
    }

    closed spec fn div_spec(self, rhs: Scalar) -> Scalar {
        Scalar { units: fx_div(self@, rhs@) as i128 }
    }
}


/// Remainder truncated toward zero, as machine remainder performs it.
pub open spec fn trem(a: int, b: int) -> int
    recommends
        b != 0,
{
    if a == 0 {
        0
    } else if a > 0 && b > 0 {
        a % b
    } else if a < 0 && b < 0 {
        ((a * -1) % (b * -1)) * -1
    } else if a < 0 {
        ((a * -1) % b) * -1
    } else {
        a % (b * -1)
    }
}

/// Fixed-point remainder with the sign of the dividend, total in the divisor.
pub open spec fn fx_rem(a: int, b: int) -> int {
    if b == 0 {
        0
    } else {
        trem(a, b)
    }
}

/// The fractional part, truncated toward zero as `f64::fract` truncates.
pub open spec fn fx_fract(a: int) -> int {
    fx_rem(a, SCALE as int)
}

impl PartialOrd for Scalar {
    fn partial_cmp(&self, other: &Scalar) -> (r: Option<core::cmp::Ordering>) {
        if self.units < other.units {
            Some(core::cmp::Ordering::Less)
        } else if self.units == other.units {
            Some(core::cmp::Ordering::Equal)
        } else {
            Some(core::cmp::Ordering::Greater)
        }
    }
}

impl vstd::std_specs::cmp::PartialOrdSpecImpl for Scalar {
    open spec fn obeys_partial_cmp_spec() -> bool {
        true
    }

    open spec fn partial_cmp_spec(&self, other: &Scalar) -> Option<core::cmp::Ordering> {
        if self@ < other@ {
            Some(core::cmp::Ordering::Less)
        } else if self@ == other@ {
            Some(core::cmp::Ordering::Equal)
        } else {
            Some(core::cmp::Ordering::Greater)
        }
    }
}

impl core::ops::Rem for Scalar {
    type Output = Scalar;

    fn rem(self, rhs: Scalar) -> (r: Scalar)
        ensures
            r@ == fx_rem(self@, rhs@),
    {
        proof {
            use_type_invariant(self);
            use_type_invariant(rhs);
        }
        if rhs.units == 0 {
            return Scalar { units: 0 };
        }
        let m = self.units.checked_rem(rhs.units).unwrap();
        Scalar { units: m }
    }
}

impl vstd::std_specs::ops::RemSpecImpl for Scalar {
    open spec fn obeys_rem_spec() -> bool {
        true
    }

    open spec fn rem_req(self, rhs: Scalar) -> bool {
        true
    }

    closed spec fn rem_spec(self, rhs: Scalar) -> Scalar {
        Scalar { units: fx_rem(self@, rhs@) as i128 }
    }
}

/// Holds exactly when `r` is the integer square root of `n`.
pub open spec fn is_sqrt(r: int, n: int) -> bool {
    0 <= r && r * r <= n && n < (r + 1) * (r + 1)
}

/// The integer square root of a non-negative integer.
pub open spec fn sqrt_int(n: int) -> int
    recommends
        n >= 0,
{
    choose|r: int| is_sqrt(r, n)
}

/// Fixed-point square root: zero on non-positive input, as the library treats
/// a negative radicand as a degenerate case.
pub open spec fn fx_sqrt(a: int) -> int {
    if a <= 0 {
        0
    } else {
        sqrt_int(a * SCALE)
    }
}

proof fn lemma_sqrt_unique(a: int, b: int, n: int)
    requires
        is_sqrt(a, n),
        is_sqrt(b, n),
    ensures
        a == b,
{
    assert(a == b) by (nonlinear_arith)
        requires
            0 <= a,
            a * a <= n,
            n < (a + 1) * (a + 1),
            0 <= b,
            b * b <= n,
            n < (b + 1) * (b + 1),
    ;
}

/// Binary search for the integer square root of a raw 128-bit value.
fn isqrt_u128(n: u128) -> (r: u128)
    ensures
        is_sqrt(r as int, n as int),
{
    if n == 0 {
        return 0;
    }
    let mut lo: u128 = 0;
    let mut hi: u128 = 0x1_0000_0000_0000_0000;
    proof {
        assert((hi as int) * (hi as int) > n as int);
    }
    while lo + 1 < hi
        invariant
            lo < hi,
            hi <= 0x1_0000_0000_0000_0000,
            (lo as int) * (lo as int) <= n as int,
            (hi as int) * (hi as int) > n as int,
        decreases hi - lo,
    {
        let mid = lo + (hi - lo) / 2;
        proof {
            assert((mid as int) * (mid as int) < 0x1_0000_0000_0000_0000_0000_0000_0000_0000)
                by (nonlinear_arith)
                requires
                    0 <= (mid as int) < 0x1_0000_0000_0000_0000,
            ;
        }
        if mid * mid <= n {
            lo = mid;
        } else {
            hi = mid;
        }
    }
    lo
}

impl Scalar {
    /// The square root, truncated to the fixed-point grid.
    pub fn sqrt(self) -> (r: Scalar)
        ensures
            r@ == fx_sqrt(self@),
    {
        proof {
            use_type_invariant(self);
        }
        if self.units <= 0 {
            return Scalar { units: 0 };
        }
        let n: u128 = (self.units as u128) * (SCALE as u128);
        let root = isqrt_u128(n);
        proof {
            assert(root as int <= 200_000_000_000_000) by (nonlinear_arith)
                requires
                    0 <= root,
                    (root as int) * (root as int) <= n as int,
                    n as int <= (BOUND as int) * (SCALE as int),
            ;
            lemma_sqrt_unique(root as int, sqrt_int(n as int), n as int);
        }
        Scalar { units: root as i128 }
    }
}


/// Units standing for half pi, the quarter turn.
pub const HALF_PI: i128 = 1_570_796_327;

/// The quotient of a division truncated toward zero never exceeds the
/// dividend in magnitude.
proof fn lemma_tdiv_bound(a: int, b: int)
    requires
        b != 0,
    ensures
        fx_abs(tdiv(a, b)) <= fx_abs(a),
{
    broadcast use vstd::arithmetic::div_mod::lemma_div_nonincreasing;
    broadcast use vstd::arithmetic::div_mod::lemma_div_pos_is_pos;

}

/// Multiply two unit counts, rescaling and clamping.
fn mul_units(a: i128, b: i128) -> (r: i128)
    requires
        -BOUND <= a <= BOUND,
        -BOUND <= b <= BOUND,
    ensures
        r as int == fx_mul(a as int, b as int),
        -BOUND <= r <= BOUND,
{
    proof {
        assert(-(BOUND as int) * (BOUND as int) <= (a as int) * (b as int) <= (BOUND as int) * (
        BOUND as int)) by (nonlinear_arith)
            requires
                -(BOUND as int) <= a as int <= BOUND as int,
                -(BOUND as int) <= b as int <= BOUND as int,
        ;
    }
    let p = a.checked_mul(b).unwrap();
    let q = p.checked_div(SCALE).unwrap();
    clamp_units(q)
}

/// Divide a unit count by a positive plain integer, truncating toward zero.
fn tdiv_units(a: i128, d: i128) -> (r: i128)
    requires
        -BOUND <= a <= BOUND,
        d > 0,
    ensures
        r as int == tdiv(a as int, d as int),
        -BOUND <= r <= BOUND,
{
    proof {
        lemma_tdiv_bound(a as int, d as int);
    }
    a.checked_div(d).unwrap()
}

/// Add two unit counts, clamping.
fn add_units(a: i128, b: i128) -> (r: i128)
    requires
        -BOUND <= a <= BOUND,
        -BOUND <= b <= BOUND,
    ensures
        r as int == fx_add(a as int, b as int),
        -BOUND <= r <= BOUND,
{
    clamp_units(a.checked_add(b).unwrap())
}

/// Subtract two unit counts, clamping.
fn sub_units(a: i128, b: i128) -> (r: i128)
    requires
        -BOUND <= a <= BOUND,
        -BOUND <= b <= BOUND,
    ensures
        r as int == fx_sub(a as int, b as int),
        -BOUND <= r <= BOUND,
{
    clamp_units(a.checked_sub(b).unwrap())
}

/// Alternating Maclaurin sum for the cosine of a reduced angle.
pub open spec fn cos_kernel(y: int) -> int {
    let x2 = fx_mul(y, y);
    let t1 = tdiv(x2, 2);
    let t2 = tdiv(fx_mul(x2, t1), 12);
    let t3 = tdiv(fx_mul(x2, t2), 30);
    let t4 = tdiv(fx_mul(x2, t3), 56);
    let t5 = tdiv(fx_mul(x2, t4), 90);
    let t6 = tdiv(fx_mul(x2, t5), 132);
    fx_add(fx_sub(fx_add(fx_sub(fx_add(fx_sub(SCALE as int, t1), t2), t3), t4), t5), t6)
}

/// Alternating Maclaurin sum for the sine of a reduced angle.
pub open spec fn sin_kernel(y: int) -> int {
    let x2 = fx_mul(y, y);
    let s1 = tdiv(fx_mul(x2, y), 6);
    let s2 = tdiv(fx_mul(x2, s1), 20);
    let s3 = tdiv(fx_mul(x2, s2), 42);
    let s4 = tdiv(fx_mul(x2, s3), 72);
    let s5 = tdiv(fx_mul(x2, s4), 110);
    let s6 = tdiv(fx_mul(x2, s5), 156);
    fx_add(fx_sub(fx_add(fx_sub(fx_add(fx_sub(y, s1), s2), s3), s4), s5), s6)
}

/// Cosine: the angle is reduced by quarter turns, then the kernel applies.
pub open spec fn fx_cos(x: int) -> int {
    let k = x / (HALF_PI as int);
    let y = x % (HALF_PI as int);
    let m = k % 4;
    if m == 0 {
        cos_kernel(y)
    } else if m == 1 {
        -sin_kernel(y)
    } else if m == 2 {
        -cos_kernel(y)
    } else {
        sin_kernel(y)
    }
}

/// Sine: the angle is reduced by quarter turns, then the kernel applies.
pub open spec fn fx_sin(x: int) -> int {
    let k = x / (HALF_PI as int);
    let y = x % (HALF_PI as int);
    let m = k % 4;
    if m == 0 {
        sin_kernel(y)
    } else if m == 1 {
        cos_kernel(y)
    } else if m == 2 {
        -sin_kernel(y)
    } else {
        -cos_kernel(y)
    }
}

/// Tangent as the quotient of sine and cosine.
pub open spec fn fx_tan(x: int) -> int {
    fx_div(fx_sin(x), fx_cos(x))
}

fn cos_kernel_units(y: i128) -> (r: i128)
    requires
        0 <= y <= HALF_PI,
    ensures
        r as int == cos_kernel(y as int),
        -BOUND <= r <= BOUND,
{
    let x2 = mul_units(y, y);
    let t1 = tdiv_units(x2, 2);
    let t2 = tdiv_units(mul_units(x2, t1), 12);
    let t3 = tdiv_units(mul_units(x2, t2), 30);
    let t4 = tdiv_units(mul_units(x2, t3), 56);
    let t5 = tdiv_units(mul_units(x2, t4), 90);
    let t6 = tdiv_units(mul_units(x2, t5), 132);
    add_units(
        sub_units(add_units(sub_units(add_units(sub_units(SCALE, t1), t2), t3), t4), t5),
        t6,
    )
}

fn sin_kernel_units(y: i128) -> (r: i128)
    requires
        0 <= y <= HALF_PI,
    ensures
        r as int == sin_kernel(y as int),
        -BOUND <= r <= BOUND,
{
    let x2 = mul_units(y, y);
    let s1 = tdiv_units(mul_units(x2, y), 6);
    let s2 = tdiv_units(mul_units(x2, s1), 20);
    let s3 = tdiv_units(mul_units(x2, s2), 42);
    let s4 = tdiv_units(mul_units(x2, s3), 72);
    let s5 = tdiv_units(mul_units(x2, s4), 110);
    let s6 = tdiv_units(mul_units(x2, s5), 156);
    add_units(sub_units(add_units(sub_units(add_units(sub_units(y, s1), s2), s3), s4), s5), s6)
}

/// Raise a fixed-point base to a whole-number power by squaring.
pub open spec fn fx_powi(b: int, e: nat) -> int
    decreases e,
{
    if e == 0 {
        SCALE as int
    } else {
        let h = fx_powi(b, e / 2);
        if e % 2 == 0 {
            fx_mul(h, h)
        } else {
            fx_mul(fx_mul(h, h), b)
        }
    }
}

/// The power operation as the lighting model uses it: the exponent is taken
/// as its whole-number part, and exponents at or below zero give one.
pub open spec fn fx_powf(b: int, e: int) -> int {
    if e <= 0 {
        fx_powi(b, 0)
    } else {
        fx_powi(b, tdiv(e, SCALE as int) as nat)
    }
}

fn pow_units(b: i128, e: u64) -> (r: i128)
    requires
        -BOUND <= b <= BOUND,
    ensures
        r as int == fx_powi(b as int, e as nat),
        -BOUND <= r <= BOUND,
    decreases e,
{
    if e == 0 {
        SCALE
    } else {
        let h = pow_units(b, e / 2);
        let h2 = mul_units(h, h);
        if e % 2 == 0 {
            h2
        } else {
            mul_units(h2, b)
        }
    }
}

impl Scalar {
    /// Cosine of an angle in radians.
    pub fn cos(self) -> (r: Scalar)
        ensures
            r@ == fx_cos(self@),
    {
        proof {
            use_type_invariant(self);
        }
        let k = self.units.checked_div_euclid(HALF_PI).unwrap();
        let y = self.units.checked_rem_euclid(HALF_PI).unwrap();
        let m = k.checked_rem_euclid(4).unwrap();
        if m == 0 {
            Scalar { units: cos_kernel_units(y) }
        } else if m == 1 {
            Scalar { units: -sin_kernel_units(y) }
        } else if m == 2 {
            Scalar { units: -cos_kernel_units(y) }
        } else {
            Scalar { units: sin_kernel_units(y) }
        }
    }

    /// Sine of an angle in radians.
    pub fn sin(self) -> (r: Scalar)
        ensures
            r@ == fx_sin(self@),
    {
        proof {
            use_type_invariant(self);
        }
        let k = self.units.checked_div_euclid(HALF_PI).unwrap();
        let y = self.units.checked_rem_euclid(HALF_PI).unwrap();
        let m = k.checked_rem_euclid(4).unwrap();
        if m == 0 {
            Scalar { units: sin_kernel_units(y) }
        } else if m == 1 {
            Scalar { units: cos_kernel_units(y) }
        } else if m == 2 {
            Scalar { units: -sin_kernel_units(y) }
        } else {
            Scalar { units: -cos_kernel_units(y) }
        }
    }

    /// Tangent of an angle in radians.
    pub fn tan(self) -> (r: Scalar)
        ensures
            r@ == fx_tan(self@),
    {
        let s = self.sin();
        let c = self.cos();
        s / c
    }

    /// The fractional part, truncated toward zero.
    pub fn fract(self) -> (r: Scalar)
        ensures
            r@ == fx_fract(self@),
    {
        proof {
            use_type_invariant(self);
        }
        let m = self.units.checked_rem(SCALE).unwrap();
        Scalar { units: m }
    }

    /// Raise to a power; the exponent's whole-number part is used.
    pub fn powf(self, exponent: Scalar) -> (r: Scalar)
        ensures
            r@ == fx_powf(self@, exponent@),
    {
        proof {
            use_type_invariant(self);
            use_type_invariant(exponent);
        }
        if exponent.units <= 0 {
            return Scalar { units: SCALE };
        }
        let e = exponent.units.checked_div(SCALE).unwrap();
        proof {
            lemma_tdiv_bound(exponent.units as int, SCALE as int);
        }
        Scalar { units: pow_units(self.units, e as u64) }
    }
}


/// Multiplying by one is exact for in-range values.
pub proof fn lemma_fx_mul_one(a: int)
    requires
        -(BOUND as int) <= a <= BOUND as int,
    ensures
        fx_mul(SCALE as int, a) == a,
        fx_mul(a, SCALE as int) == a,
{
    broadcast use vstd::arithmetic::div_mod::lemma_div_multiples_vanish;

    if a == 0 {
    } else if a > 0 {
        assert((SCALE as int) * a == (SCALE as int) * a);
        assert(((SCALE as int) * a) / (SCALE as int) == a);
        assert(a * (SCALE as int) == (SCALE as int) * a) by (nonlinear_arith);
    } else {
        let b = -a;
        assert(((SCALE as int) * b) / (SCALE as int) == b);
        assert((SCALE as int) * a * -1 == (SCALE as int) * (-a)) by (nonlinear_arith);
        assert(a * (SCALE as int) == (SCALE as int) * a) by (nonlinear_arith);
    }
}

/// Multiplying by zero gives zero.
pub proof fn lemma_fx_mul_zero(a: int)
    ensures
        fx_mul(0, a) == 0,
        fx_mul(a, 0) == 0,
{
    assert(0 * a == 0) by (nonlinear_arith);
    assert(a * 0 == 0) by (nonlinear_arith);
}

/// Adding zero is exact for in-range values.
pub proof fn lemma_fx_add_zero(a: int)
    requires
        -(BOUND as int) <= a <= BOUND as int,
    ensures
        fx_add(a, 0) == a,
        fx_add(0, a) == a,
{
}


/// Dividing by one is exact for in-range values.
pub proof fn lemma_fx_div_one(a: int)
    requires
        -(BOUND as int) <= a <= BOUND as int,
    ensures
        fx_div(a, SCALE as int) == a,
{
    broadcast use vstd::arithmetic::div_mod::lemma_div_multiples_vanish;

    if a == 0 {
    } else if a > 0 {
        assert(a * (SCALE as int) == (SCALE as int) * a) by (nonlinear_arith);
        assert(((SCALE as int) * a) / (SCALE as int) == a);
    } else {
        assert(a * (SCALE as int) * -1 == (SCALE as int) * (-a)) by (nonlinear_arith);
        assert(((SCALE as int) * (-a)) / (SCALE as int) == -a);
    }
}


/// Quantified forms of the exactness facts, for proofs that meet these
/// products at many values.
pub proof fn lemma_fx_mul_basics()
    ensures
        forall|a: int| #[trigger] fx_mul(0, a) == 0,
        forall|a: int| #[trigger] fx_mul(a, 0) == 0,
        forall|a: int|
            -(BOUND as int) <= a <= BOUND as int ==> #[trigger] fx_mul(SCALE as int, a) == a,
        forall|a: int|
            -(BOUND as int) <= a <= BOUND as int ==> #[trigger] fx_mul(a, SCALE as int) == a,
        forall|a: int|
            -(BOUND as int) <= a <= BOUND as int ==> #[trigger] fx_div(a, SCALE as int) == a,
{
    assert forall|a: int| #[trigger] fx_mul(0, a) == 0 by {
        lemma_fx_mul_zero(a);
    }
    assert forall|a: int| #[trigger] fx_mul(a, 0) == 0 by {
        lemma_fx_mul_zero(a);
    }
    assert forall|a: int|
        -(BOUND as int) <= a <= BOUND as int implies #[trigger] fx_mul(SCALE as int, a) == a by {
        if -(BOUND as int) <= a <= BOUND as int {
            lemma_fx_mul_one(a);
        }
    }
    assert forall|a: int|
        -(BOUND as int) <= a <= BOUND as int implies #[trigger] fx_mul(a, SCALE as int) == a by {
        if -(BOUND as int) <= a <= BOUND as int {
            lemma_fx_mul_one(a);
        }
    }
    assert forall|a: int|
        -(BOUND as int) <= a <= BOUND as int implies #[trigger] fx_div(a, SCALE as int) == a by {
        if -(BOUND as int) <= a <= BOUND as int {
            lemma_fx_div_one(a);
        }
    }
}


/// Division truncated toward zero loses less than one divisor's worth:
/// multiplying the quotient back comes within `b` of the dividend.
pub proof fn lemma_tdiv_error(a: int, b: int)
    requires
        b > 0,
    ensures
        fx_abs(tdiv(a, b) * b - a) < b,
{
    if a == 0 {
        assert(tdiv(a, b) * b - a == 0) by (nonlinear_arith)
            requires
                a == 0,
                tdiv(a, b) == 0,
        ;
    } else if a > 0 {
        vstd::arithmetic::div_mod::lemma_fundamental_div_mod(a, b);
        vstd::arithmetic::div_mod::lemma_mod_division_less_than_divisor(a, b);
        assert((a / b) * b == b * (a / b)) by (nonlinear_arith);
    } else {
        let c = a * -1;
        vstd::arithmetic::div_mod::lemma_fundamental_div_mod(c, b);
        vstd::arithmetic::div_mod::lemma_mod_division_less_than_divisor(c, b);
        assert(((c / b) * -1) * b == -(b * (c / b))) by (nonlinear_arith);
    }
}


/// Fixed-point multiplication within stated bounds never clamps and loses
/// less than one unit: the result times the scale comes within one scale of
/// the exact product.
pub proof fn lemma_fx_mul_error(x: int, y: int, xb: int, yb: int)
    requires
        fx_abs(x) <= xb,
        fx_abs(y) <= yb,
        0 <= xb,
        0 <= yb,
        xb * yb + SCALE as int <= (BOUND as int) * (SCALE as int),
    ensures
        fx_abs(fx_mul(x, y) * (SCALE as int) - x * y) < SCALE as int,
        fx_abs(fx_mul(x, y)) * (SCALE as int) <= xb * yb + SCALE as int,
{
    let q = tdiv(x * y, SCALE as int);
    lemma_tdiv_error(x * y, SCALE as int);
    assert(fx_abs(x * y) <= xb * yb) by (nonlinear_arith)
        requires
            fx_abs(x) <= xb,
            fx_abs(y) <= yb,
            0 <= xb,
            0 <= yb,
    ;
    assert(fx_abs(q) * (SCALE as int) <= xb * yb + SCALE as int && -(BOUND as int) <= q <= (
    BOUND as int)) by (nonlinear_arith)
        requires
            fx_abs(q * (SCALE as int) - x * y) < SCALE as int,
            fx_abs(x * y) <= xb * yb,
            xb * yb + SCALE as int <= (BOUND as int) * (SCALE as int),
            SCALE == 1_000_000_000,
    ;
}


/// Multiplying by two is exact for values well inside the range.
pub proof fn lemma_fx_mul_double(a: int)
    requires
        fx_abs(a) <= 2 * SCALE as int,
    ensures
        fx_mul(a, 2 * SCALE as int) == 2 * a,
{
    broadcast use vstd::arithmetic::div_mod::lemma_div_multiples_vanish;

    if a == 0 {
        assert(fx_mul(a, 2 * SCALE as int) == 2 * a) by (nonlinear_arith)
            requires
                a == 0,
                fx_mul(a, 2 * SCALE as int) == 0,
        ;
    } else if a > 0 {
        assert(a * (2 * SCALE as int) == (SCALE as int) * (2 * a)) by (nonlinear_arith);
        assert(((SCALE as int) * (2 * a)) / (SCALE as int) == 2 * a);
    } else {
        assert(a * (2 * SCALE as int) * -1 == (SCALE as int) * (2 * (-a))) by (nonlinear_arith);
        assert(((SCALE as int) * (2 * (-a))) / (SCALE as int) == 2 * (-a));
    }
}

} // verus!
