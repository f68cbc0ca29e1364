use vstd::prelude::*;

verus! {

use crate::fixed::{Scalar, fx_add, fx_sub, fx_mul, fx_approx_eq, SCALE};

/// Mathematical image of a color: three channel unit counts.
pub ghost struct ColorView {
    pub r: int,
    pub g: int,
    pub b: int,
}

/// Channelwise sum.
pub open spec fn cv_add(a: ColorView, b: ColorView) -> ColorView {
    ColorView { r: fx_add(a.r, b.r), g: fx_add(a.g, b.g), b: fx_add(a.b, b.b) }
}

/// Channelwise difference.
pub open spec fn cv_sub(a: ColorView, b: ColorView) -> ColorView {
    ColorView { r: fx_sub(a.r, b.r), g: fx_sub(a.g, b.g), b: fx_sub(a.b, b.b) }
}

/// Channelwise scaling.
pub open spec fn cv_scale(a: ColorView, s: int) -> ColorView {
    ColorView { r: fx_mul(a.r, s), g: fx_mul(a.g, s), b: fx_mul(a.b, s) }
}

/// Channelwise product, the Hadamard blend of two colors.
pub open spec fn cv_mul(a: ColorView, b: ColorView) -> ColorView {
    ColorView { r: fx_mul(a.r, b.r), g: fx_mul(a.g, b.g), b: fx_mul(a.b, b.b) }
}

/// Tolerance-based equality on all three channels.
pub open spec fn cv_approx_eq(a: ColorView, b: ColorView) -> bool {
    fx_approx_eq(a.r, b.r) && fx_approx_eq(a.g, b.g) && fx_approx_eq(a.b, b.b)
}

/// The black color.
pub open spec fn cv_black() -> ColorView {
    ColorView { r: 0, g: 0, b: 0 }
}

/// The white color.
pub open spec fn cv_white() -> ColorView {
    ColorView { r: SCALE as int, g: SCALE as int, b: SCALE as int }
}

/// An RGB triple; channels may leave the unit interval until the image sink
/// clamps them.
#[derive(Debug, Copy, Clone)]
pub struct Color {
    pub r: Scalar,
    pub g: Scalar,
    pub b: Scalar,
}

impl View for Color {
    type V = ColorView;

    open spec fn view(&self) -> ColorView {
        ColorView { r: self.r@, g: self.g@, b: self.b@ }
    }
}

/// Pure black.
pub fn black() -> (r: Color)
    ensures
        r@ == cv_black(),
{
    Color::new(Scalar::zero(), Scalar::zero(), Scalar::zero())
}

/// Pure white.
pub fn white() -> (r: Color)
    ensures
        r@ == cv_white(),
{
    Color::new(Scalar::one(), Scalar::one(), Scalar::one())
}

/// Pure red.
pub fn red() -> (r: Color)
    ensures
        r@ == (ColorView { r: SCALE as int, g: 0, b: 0 }),
{
    Color::new(Scalar::one(), Scalar::zero(), Scalar::zero())
}

/// Pure green.
pub fn green() -> (r: Color)
    ensures
        r@ == (ColorView { r: 0, g: SCALE as int, b: 0 }),
{
    Color::new(Scalar::zero(), Scalar::one(), Scalar::zero())
}

/// Pure blue.
pub fn blue() -> (r: Color)
    ensures
        r@ == (ColorView { r: 0, g: 0, b: SCALE as int }),
{
    Color::new(Scalar::zero(), Scalar::zero(), Scalar::one())
}

impl PartialEq for Color {
    fn eq(&self, other: &Color) -> (r: bool) {
        crate::fixed::Scalar::approx_eq(self.r, other.r)
            && crate::fixed::Scalar::approx_eq(self.g, other.g)
            && crate::fixed::Scalar::approx_eq(self.b, other.b)
    }
}

impl vstd::std_specs::cmp::PartialEqSpecImpl for Color {
    open spec fn obeys_eq_spec() -> bool {
        true
    }

    open spec fn eq_spec(&self, other: &Color) -> bool {
        cv_approx_eq(self@, other@)
    }
}

impl core::ops::Add for Color {
    type Output = Color;

    fn add(self, rhs: Color) -> (r: Color)
        ensures
            r@ == cv_add(self@, rhs@),
    {
        Color { r: self.r + rhs.r, g: self.g + rhs.g, b: self.b + rhs.b }
    }
}

impl vstd::std_specs::ops::AddSpecImpl for Color {
    open spec fn obeys_add_spec() -> bool {
        false
    }

    open spec fn add_req(self, rhs: Color) -> bool {
        true
    }

    open spec fn add_spec(self, rhs: Color) -> Color {
        arbitrary()
    }
}

impl core::ops::Sub for Color {
    type Output = Color;

    fn sub(self, rhs: Color) -> (r: Color)
        ensures
            r@ == cv_sub(self@, rhs@),
    {
        Color { r: self.r - rhs.r, g: self.g - rhs.g, b: self.b - rhs.b }
    }
}

impl vstd::std_specs::ops::SubSpecImpl for Color {
    open spec fn obeys_sub_spec() -> bool {
        false
    }

    open spec fn sub_req(self, rhs: Color) -> bool {
        true
    }

    open spec fn sub_spec(self, rhs: Color) -> Color {
        arbitrary()
    }
}

impl core::ops::Mul<Scalar> for Color {
    type Output = Color;

    fn mul(self, rhs: Scalar) -> (r: Color)
        ensures
            r@ == cv_scale(self@, rhs@),
    {
        Color { r: self.r * rhs, g: self.g * rhs, b: self.b * rhs }
    }
}

impl vstd::std_specs::ops::MulSpecImpl<Scalar> for Color {
    open spec fn obeys_mul_spec() -> bool {
        false
    }

    open spec fn mul_req(self, rhs: Scalar) -> bool {
        true
    }

    open spec fn mul_spec(self, rhs: Scalar) -> Color {
        arbitrary()
    }
}

impl core::ops::Mul<Color> for Color {
    type Output = Color;

    fn mul(self, rhs: Color) -> (r: Color)
        ensures
            r@ == cv_mul(self@, rhs@),
    {
        Color { r: self.r * rhs.r, g: self.g * rhs.g, b: self.b * rhs.b }
    }
}

impl vstd::std_specs::ops::MulSpecImpl<Color> for Color {
    open spec fn obeys_mul_spec() -> bool {
        false
    }

    open spec fn mul_req(self, rhs: Color) -> bool {
        true
    }

    open spec fn mul_spec(self, rhs: Color) -> Color {
        arbitrary()
    }
}

impl Color {
    /// A color from its three channels.
    pub fn new(r: Scalar, g: Scalar, b: Scalar) -> (c: Color)
        ensures
            c@ == (ColorView { r: r@, g: g@, b: b@ }),
    {
        Color { r, g, b }
    }
}

} // verus!
