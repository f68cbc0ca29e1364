use vstd::prelude::*;

verus! {

use crate::color::{Color, ColorView, cv_approx_eq};
use crate::tuple::{Tuple, TupleView, tv_approx_eq};

/// Mathematical image of a point light.
pub ghost struct PointLightView {
    pub position: TupleView,
    pub intensity: ColorView,
}

/// A point light: a position and the color it shines with.
#[derive(Debug, Copy, Clone)]
pub struct PointLight {
    pub position: Tuple,
    pub intensity: Color,
}

impl View for PointLight {
    type V = PointLightView;

    open spec fn view(&self) -> PointLightView {
        PointLightView { position: self.position@, intensity: self.intensity@ }
    }
}

impl PartialEq for PointLight {
    fn eq(&self, other: &PointLight) -> (r: bool) {
        self.position == other.position && self.intensity == other.intensity
    }
}

impl vstd::std_specs::cmp::PartialEqSpecImpl for PointLight {
    open spec fn obeys_eq_spec() -> bool {
        true
    }

    open spec fn eq_spec(&self, other: &PointLight) -> bool {
        tv_approx_eq(self@.position, other@.position) && cv_approx_eq(
            self@.intensity,
            other@.intensity,
        )
    }
}

impl PointLight {
    /// A light at the given position with the given intensity.
    pub fn new(position: Tuple, intensity: Color) -> (r: PointLight)
        ensures
            r@ == (PointLightView { position: position@, intensity: intensity@ }),
    {
        PointLight { position, intensity }
    }
}

} // verus!
