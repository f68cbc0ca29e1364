use vstd::prelude::*;

verus! {

use crate::color::{Color, ColorView, cv_add, cv_mul, cv_scale, cv_approx_eq, cv_black, cv_white};
use crate::fixed::{Scalar, fx_powf, SCALE};
use crate::pointlight::{PointLight, PointLightView};
use crate::tuple::{Tuple, TupleView, tv_dot, tv_neg, tv_normalize, tv_reflect, tv_sub};
use core::ops::Neg;

/// Mathematical image of a material.
pub ghost struct MaterialView {
    pub color: ColorView,
    pub ambient: int,
    pub diffuse: int,
    pub specular: int,
    pub shininess: int,
}

/// Units standing for the stock ambient weight of one tenth.
pub const DEFAULT_AMBIENT_UNITS: i128 = 100_000_000;

/// Units standing for the stock diffuse weight of nine tenths.
pub const DEFAULT_DIFFUSE_UNITS: i128 = 900_000_000;

/// Units standing for the stock specular weight of nine tenths.
pub const DEFAULT_SPECULAR_UNITS: i128 = 900_000_000;

/// Units standing for the stock shininess exponent of two hundred.
pub const DEFAULT_SHININESS_UNITS: i128 = 200_000_000_000;

/// The stock material: white, with the stock Phong weights.
pub open spec fn default_material_view() -> MaterialView {
    MaterialView {
        color: cv_white(),
        ambient: DEFAULT_AMBIENT_UNITS as int,
        diffuse: DEFAULT_DIFFUSE_UNITS as int,
        specular: DEFAULT_SPECULAR_UNITS as int,
        shininess: DEFAULT_SHININESS_UNITS as int,
    }
}

/// Materials compare structurally: base colors within tolerance, the Phong
/// coefficients exact.
pub open spec fn spec_material_eq(a: MaterialView, b: MaterialView) -> bool {
    cv_approx_eq(a.color, b.color) && a.ambient == b.ambient && a.diffuse == b.diffuse
        && a.specular == b.specular && a.shininess == b.shininess
}

/// The Phong illumination model, step for step: the ambient share always
/// contributes; the diffuse and specular shares contribute when the surface
/// faces the light and the point is not in shadow.
pub open spec fn spec_lighting(
    m: MaterialView,
    light: PointLightView,
    point: TupleView,
    eyev: TupleView,
    normalv: TupleView,
    in_shadow: bool,
) -> ColorView {
    let effective_color = cv_mul(m.color, light.intensity);
    let lightv = tv_normalize(tv_sub(light.position, point));
    let ambient = cv_scale(effective_color, m.ambient);
    let light_dot_normal = tv_dot(lightv, normalv);
    let diffuse = if light_dot_normal < 0 {
        cv_black()
    } else {
        cv_scale(cv_scale(effective_color, m.diffuse), light_dot_normal)
    };
    let specular = if light_dot_normal < 0 {
        cv_black()
    } else {
        let reflectv = tv_reflect(tv_neg(lightv), normalv);
        let reflect_dot_eye = tv_dot(reflectv, eyev);
        if reflect_dot_eye <= 0 {
            cv_black()
        } else {
            cv_scale(cv_scale(light.intensity, m.specular), fx_powf(reflect_dot_eye, m.shininess))
        }
    };
    cv_add(
        ambient,
        if in_shadow {
            cv_black()
        } else {
            cv_add(diffuse, specular)
        },
    )
}

/// A material: a base color and the four Phong coefficients.
#[derive(Debug, Copy, Clone)]
pub struct Material {
    pub color: Color,
    pub ambient: Scalar,
    pub diffuse: Scalar,
    pub specular: Scalar,
    pub shininess: Scalar,
}

impl View for Material {
    type V = MaterialView;

    open spec fn view(&self) -> MaterialView {
        MaterialView {
            color: self.color@,
            ambient: self.ambient@,
            diffuse: self.diffuse@,
            specular: self.specular@,
            shininess: self.shininess@,
        }
    }
}

impl PartialEq for Material {
    fn eq(&self, other: &Material) -> (r: bool) {
        self.color == other.color && self.ambient.units() == other.ambient.units()
            && self.diffuse.units() == other.diffuse.units() && self.specular.units()
            == other.specular.units() && self.shininess.units() == other.shininess.units()
    }
}

impl vstd::std_specs::cmp::PartialEqSpecImpl for Material {
    open spec fn obeys_eq_spec() -> bool {
        true
    }

    open spec fn eq_spec(&self, other: &Material) -> bool {
        spec_material_eq(self@, other@)
    }
}

impl Default for Material {
    fn default() -> (r: Material)
        ensures
            r@ == default_material_view(),
    {
        Material::new(
            crate::color::white(),
            Scalar::from_units(DEFAULT_AMBIENT_UNITS),
            Scalar::from_units(DEFAULT_DIFFUSE_UNITS),
            Scalar::from_units(DEFAULT_SPECULAR_UNITS),
            Scalar::from_units(DEFAULT_SHININESS_UNITS),
        )
    }
}

impl Material {
    /// A material from its color and Phong coefficients.
    pub fn new(color: Color, ambient: Scalar, diffuse: Scalar, specular: Scalar, shininess: Scalar)
        -> (r: Material)
        ensures
            r@ == (MaterialView {
                color: color@,
                ambient: ambient@,
                diffuse: diffuse@,
                specular: specular@,
                shininess: shininess@,
            }),
    {
        Material { color, ambient, diffuse, specular, shininess }
    }

    /// The Phong illumination of this material at a surface point.
    pub fn lighting(
        &self,
        light: &PointLight,
        point: Tuple,
        eyev: Tuple,
        normalv: Tuple,
        in_shadow: bool,
    ) -> (r: Color)
        ensures
            r@ == spec_lighting(self@, light@, point@, eyev@, normalv@, in_shadow),
    {
        let effective_color = self.color * light.intensity;
        let lightv = (light.position - point).normalize();
        let ambient = effective_color * self.ambient;
        let light_dot_normal = lightv.dot(&normalv);
        let black = crate::color::black();
        let (diffuse, specular) = if light_dot_normal < Scalar::zero() {
            (black, black)
        } else {
            let reflectv = lightv.neg().reflect(normalv);
            let reflect_dot_eye = reflectv.dot(&eyev);
            (
                effective_color * self.diffuse * light_dot_normal,
                if reflect_dot_eye.units() <= 0 {
                    black
                } else {
                    let factor = reflect_dot_eye.powf(self.shininess);
                    light.intensity * self.specular * factor
                },
            )
        };
        ambient + if in_shadow {
            black
        } else {
            diffuse + specular
        }
    }
}

} // verus!
