use vstd::prelude::*;

verus! {

use crate::fixed::{
    Scalar, fx_abs, fx_neg, fx_sin, fx_cos, SCALE, BOUND, EPSILON, lemma_fx_mul_one,
    lemma_fx_mul_zero, lemma_fx_mul_basics,
};
use crate::matrix::{
    Matrix, MatrixView, mv_mul, mv_mul_tuple, mv_inverse, mv_sub, spec_det, spec_det_sum,
    spec_cof, spec_minor,
};
use crate::tuple::{Tuple, TupleView, tv_sub, tv_normalize, tv_cross};
use core::ops::Neg;

/// The translation by the given offsets.
pub open spec fn mv_translation(x: int, y: int, z: int) -> MatrixView {
    MatrixView {
        size: 4,
        e: Seq::new(
            4,
            |r: int|
                Seq::new(
                    4,
                    |c: int|
                        if r == 0 && c == 3 {
                            x
                        } else if r == 1 && c == 3 {
                            y
                        } else if r == 2 && c == 3 {
                            z
                        } else if r == c {
                            SCALE as int
                        } else {
                            0
                        },
                ),
        ),
    }
}

/// The scaling by the given factors.
pub open spec fn mv_scaling(x: int, y: int, z: int) -> MatrixView {
    MatrixView {
        size: 4,
        e: Seq::new(
            4,
            |r: int|
                Seq::new(
                    4,
                    |c: int|
                        if r != c {
                            0
                        } else if r == 0 {
                            x
                        } else if r == 1 {
                            y
                        } else if r == 2 {
                            z
                        } else {
                            SCALE as int
                        },
                ),
        ),
    }
}

/// The rotation about the x axis by the given angle in radians.
pub open spec fn mv_rotation_x(rad: int) -> MatrixView {
    MatrixView {
        size: 4,
        e: Seq::new(
            4,
            |r: int|
                Seq::new(
                    4,
                    |c: int|
                        if r == 1 && c == 1 {
                            fx_cos(rad)
                        } else if r == 1 && c == 2 {
                            fx_neg(fx_sin(rad))
                        } else if r == 2 && c == 1 {
                            fx_sin(rad)
                        } else if r == 2 && c == 2 {
                            fx_cos(rad)
                        } else if r == c {
                            SCALE as int
                        } else {
                            0
                        },
                ),
        ),
    }
}

/// The rotation about the y axis by the given angle in radians.
pub open spec fn mv_rotation_y(rad: int) -> MatrixView {
    MatrixView {
        size: 4,
        e: Seq::new(
            4,
            |r: int|
                Seq::new(
                    4,
                    |c: int|
                        if r == 0 && c == 0 {
                            fx_cos(rad)
                        } else if r == 0 && c == 2 {
                            fx_sin(rad)
                        } else if r == 2 && c == 0 {
                            fx_neg(fx_sin(rad))
                        } else if r == 2 && c == 2 {
                            fx_cos(rad)
                        } else if r == c {
                            SCALE as int
                        } else {
                            0
                        },
                ),
        ),
    }
}

/// The rotation about the z axis by the given angle in radians.
pub open spec fn mv_rotation_z(rad: int) -> MatrixView {
    MatrixView {
        size: 4,
        e: Seq::new(
            4,
            |r: int|
                Seq::new(
                    4,
                    |c: int|
                        if r == 0 && c == 0 {
                            fx_cos(rad)
                        } else if r == 0 && c == 1 {
                            fx_neg(fx_sin(rad))
                        } else if r == 1 && c == 0 {
                            fx_sin(rad)
                        } else if r == 1 && c == 1 {
                            fx_cos(rad)
                        } else if r == c {
                            SCALE as int
                        } else {
                            0
                        },
                ),
        ),
    }
}

/// The shearing that moves each axis in proportion to the other two.
pub open spec fn mv_shearing(xy: int, xz: int, yx: int, yz: int, zx: int, zy: int) -> MatrixView {
    MatrixView {
        size: 4,
        e: Seq::new(
            4,
            |r: int|
                Seq::new(
                    4,
                    |c: int|
                        if r == 0 && c == 1 {
                            xy
                        } else if r == 0 && c == 2 {
                            xz
                        } else if r == 1 && c == 0 {
                            yx
                        } else if r == 1 && c == 2 {
                            yz
                        } else if r == 2 && c == 0 {
                            zx
                        } else if r == 2 && c == 1 {
                            zy
                        } else if r == c {
                            SCALE as int
                        } else {
                            0
                        },
                ),
        ),
    }
}

/// The view transform: the orthonormal camera basis composed with the
/// translation that moves the eye to the origin.
pub open spec fn mv_view_transform(from: TupleView, to: TupleView, up: TupleView) -> MatrixView {
    let forward = tv_normalize(tv_sub(to, from));
    let left = tv_cross(forward, tv_normalize(up));
    let true_up = tv_cross(left, forward);
    let orientation = MatrixView {
        size: 4,
        e: Seq::new(
            4,
            |r: int|
                Seq::new(
                    4,
                    |c: int|
                        if r == 0 {
                            if c == 0 {
                                left.x
                            } else if c == 1 {
                                left.y
                            } else if c == 2 {
                                left.z
                            } else {
                                0
                            }
                        } else if r == 1 {
                            if c == 0 {
                                true_up.x
                            } else if c == 1 {
                                true_up.y
                            } else if c == 2 {
                                true_up.z
                            } else {
                                0
                            }
                        } else if r == 2 {
                            if c == 0 {
                                fx_neg(forward.x)
                            } else if c == 1 {
                                fx_neg(forward.y)
                            } else if c == 2 {
                                fx_neg(forward.z)
                            } else {
                                0
                            }
                        } else {
                            if c == 3 {
                                SCALE as int
                            } else {
                                0
                            }
                        },
                ),
        ),
    };
    mv_mul(orientation, mv_translation(fx_neg(from.x), fx_neg(from.y), fx_neg(from.z)))
}

impl Matrix {
    /// The translation by the given offsets.
    pub fn translation(x: Scalar, y: Scalar, z: Scalar) -> (r: Matrix)
        ensures
            r@ == mv_translation(x@, y@, z@),
    {
        let mut m = Matrix::identity();
        m.set(0, 3, x);
        m.set(1, 3, y);
        m.set(2, 3, z);
        proof {
            assert(m@.e =~~= mv_translation(x@, y@, z@).e);
            assert(m@ =~= mv_translation(x@, y@, z@));
        }
        m
    }

    /// The scaling by the given factors.
    pub fn scaling(x: Scalar, y: Scalar, z: Scalar) -> (r: Matrix)
        ensures
            r@ == mv_scaling(x@, y@, z@),
    {
        let mut m = Matrix::identity();
        m.set(0, 0, x);
        m.set(1, 1, y);
        m.set(2, 2, z);
        proof {
            assert(m@.e =~~= mv_scaling(x@, y@, z@).e);
            assert(m@ =~= mv_scaling(x@, y@, z@));
        }
        m
    }

    /// The rotation about the x axis by the given angle in radians.
    pub fn rotation_x(rad: Scalar) -> (r: Matrix)
        ensures
            r@ == mv_rotation_x(rad@),
    {
        let mut m = Matrix::identity();
        m.set(1, 1, rad.cos());
        m.set(1, 2, rad.sin().neg());
        m.set(2, 1, rad.sin());
        m.set(2, 2, rad.cos());
        proof {
            assert(m@.e =~~= mv_rotation_x(rad@).e);
            assert(m@ =~= mv_rotation_x(rad@));
        }
        m
    }

    /// The rotation about the y axis by the given angle in radians.
    pub fn rotation_y(rad: Scalar) -> (r: Matrix)
        ensures
            r@ == mv_rotation_y(rad@),
    {
        let mut m = Matrix::identity();
        m.set(0, 0, rad.cos());
        m.set(0, 2, rad.sin());
        m.set(2, 0, rad.sin().neg());
        m.set(2, 2, rad.cos());
        proof {
            assert(m@.e =~~= mv_rotation_y(rad@).e);
            assert(m@ =~= mv_rotation_y(rad@));
        }
        m
    }

    /// The rotation about the z axis by the given angle in radians.
    pub fn rotation_z(rad: Scalar) -> (r: Matrix)
        ensures
            r@ == mv_rotation_z(rad@),
    {
        let mut m = Matrix::identity();
        m.set(0, 0, rad.cos());
        m.set(0, 1, rad.sin().neg());
        m.set(1, 0, rad.sin());
        m.set(1, 1, rad.cos());
        proof {
            assert(m@.e =~~= mv_rotation_z(rad@).e);
            assert(m@ =~= mv_rotation_z(rad@));
        }
        m
    }

    /// The shearing that moves each axis in proportion to the other two.
    pub fn shearing(
        x_to_y: Scalar,
        x_to_z: Scalar,
        y_to_x: Scalar,
        y_to_z: Scalar,
        z_to_x: Scalar,
        z_to_y: Scalar,
    ) -> (r: Matrix)
        ensures
            r@ == mv_shearing(x_to_y@, x_to_z@, y_to_x@, y_to_z@, z_to_x@, z_to_y@),
    {
        let mut m = Matrix::identity();
        m.set(0, 1, x_to_y);
        m.set(0, 2, x_to_z);
        m.set(1, 0, y_to_x);
        m.set(1, 2, y_to_z);
        m.set(2, 0, z_to_x);
        m.set(2, 1, z_to_y);
        proof {
            assert(m@.e =~~= mv_shearing(x_to_y@, x_to_z@, y_to_x@, y_to_z@, z_to_x@, z_to_y@).e);
            assert(m@ =~= mv_shearing(x_to_y@, x_to_z@, y_to_x@, y_to_z@, z_to_x@, z_to_y@));
        }
        m
    }

    /// The view transform for a camera at `from` looking at `to`.
    pub fn view_transform(from: Tuple, to: Tuple, up: Tuple) -> (r: Matrix)
        ensures
            r@ == mv_view_transform(from@, to@, up@),
    {
        let forward = (to - from).normalize();
        let left = forward.cross(&up.normalize());
        let true_up = left.cross(&forward);
        let z = Scalar::zero();
        let o = Scalar::one();
        let orientation = Matrix::new(
            [left.x, left.y, left.z, z],
            [true_up.x, true_up.y, true_up.z, z],
            [forward.x.neg(), forward.y.neg(), forward.z.neg(), z],
            [z, z, z, o],
        );
        let shift = Matrix::translation(from.x.neg(), from.y.neg(), from.z.neg());
        proof {
            let fwd = tv_normalize(tv_sub(to@, from@));
            let lf = tv_cross(fwd, tv_normalize(up@));
            let tu = tv_cross(lf, fwd);
            let want = MatrixView {
                size: 4,
                e: Seq::new(
                    4,
                    |r: int|
                        Seq::new(
                            4,
                            |c: int|
                                if r == 0 {
                                    if c == 0 {
                                        lf.x
                                    } else if c == 1 {
                                        lf.y
                                    } else if c == 2 {
                                        lf.z
                                    } else {
                                        0
                                    }
                                } else if r == 1 {
                                    if c == 0 {
                                        tu.x
                                    } else if c == 1 {
                                        tu.y
                                    } else if c == 2 {
                                        tu.z
                                    } else {
                                        0
                                    }
                                } else if r == 2 {
                                    if c == 0 {
                                        fx_neg(fwd.x)
                                    } else if c == 1 {
                                        fx_neg(fwd.y)
                                    } else if c == 2 {
                                        fx_neg(fwd.z)
                                    } else {
                                        0
                                    }
                                } else {
                                    if c == 3 {
                                        SCALE as int
                                    } else {
                                        0
                                    }
                                },
                        ),
                ),
            };
            assert(orientation@.e =~~= want.e);
            assert(orientation@ =~= want);
        }
        orientation * shift
    }
}


/// Translation leaves vectors unchanged: applying a translation matrix to
/// any vector gives that vector back, exactly.
pub proof fn lemma_translation_fixes_vectors(x: Scalar, y: Scalar, z: Scalar, v: Tuple)
    requires
        v@.is_vector(),
        v.x.inv(),
        v.y.inv(),
        v.z.inv(),
    ensures
        mv_mul_tuple(mv_translation(x@, y@, z@), v@) == v@,
{
    let t = mv_translation(x@, y@, z@);
    lemma_fx_mul_one(v@.x);
    lemma_fx_mul_one(v@.y);
    lemma_fx_mul_one(v@.z);
    lemma_fx_mul_zero(v@.x);
    lemma_fx_mul_zero(v@.y);
    lemma_fx_mul_zero(v@.z);
    lemma_fx_mul_zero(x@);
    lemma_fx_mul_zero(y@);
    lemma_fx_mul_zero(z@);
    lemma_fx_mul_zero(SCALE as int);
    assert(mv_mul_tuple(t, v@).x == v@.x);
    assert(mv_mul_tuple(t, v@).y == v@.y);
    assert(mv_mul_tuple(t, v@).z == v@.z);
    assert(mv_mul_tuple(t, v@).w == 0);
}


/// The determinant of a translation matrix is one, and its inverse is the
/// translation by the opposite offsets.
proof fn lemma_translation_inverse(x: int, y: int, z: int)
    requires
        -(BOUND as int) <= x <= BOUND as int,
        -(BOUND as int) <= y <= BOUND as int,
        -(BOUND as int) <= z <= BOUND as int,
    ensures
        spec_det(mv_translation(x, y, z)) == SCALE as int,
        mv_inverse(mv_translation(x, y, z)) == mv_translation(-x, -y, -z),
{
    reveal_with_fuel(spec_det, 4);
    reveal_with_fuel(spec_det_sum, 6);
    let t = mv_translation(x, y, z);
    let one: int = SCALE as int;
    lemma_fx_mul_basics();

    // Cofactors in the first column of the cofactor grid.
    assert(spec_cof(t, 0, 0) == one);
    assert(spec_cof(t, 1, 0) == 0);
    assert(spec_cof(t, 2, 0) == 0);
    assert(spec_cof(t, 3, 0) == -x);

    // Second column.
    assert(spec_cof(t, 0, 1) == 0);
    assert(spec_cof(t, 1, 1) == one);
    assert(spec_cof(t, 2, 1) == 0);
    assert(spec_cof(t, 3, 1) == -y);

    // Third column.
    assert(spec_cof(t, 0, 2) == 0);
    assert(spec_cof(t, 1, 2) == 0);
    assert(spec_cof(t, 2, 2) == one);
    assert(spec_cof(t, 3, 2) == -z);

    // Fourth column.
    assert(spec_cof(t, 0, 3) == 0);
    assert(spec_cof(t, 1, 3) == 0);
    assert(spec_cof(t, 2, 3) == 0);
    assert(spec_cof(t, 3, 3) == one);

    assert(t.e[0][0] == one && t.e[0][1] == 0 && t.e[0][2] == 0 && t.e[0][3] == x);
    assert(spec_det_sum(t, 1) == one);
    assert(spec_det_sum(t, 2) == one);
    assert(spec_det_sum(t, 3) == one);
    assert(spec_det_sum(t, 4) == one);
    assert(spec_det(t) == one);
    assert(mv_inverse(t).e =~~= mv_translation(-x, -y, -z).e);
    assert(mv_inverse(t) =~= mv_translation(-x, -y, -z));
}

/// Round trip through a translation: for any point, applying a translation
/// and then its inverse gives the point back, exactly, as long as the
/// translated point stays in the representable range.
pub proof fn lemma_translation_round_trip(x: Scalar, y: Scalar, z: Scalar, p: Tuple)
    requires
        p@.is_point(),
        p.x.inv(),
        p.y.inv(),
        p.z.inv(),
        -(BOUND as int) <= p@.x + x@ <= BOUND as int,
        -(BOUND as int) <= p@.y + y@ <= BOUND as int,
        -(BOUND as int) <= p@.z + z@ <= BOUND as int,
        x.inv(),
        y.inv(),
        z.inv(),
    ensures
        fx_abs(spec_det(mv_translation(x@, y@, z@))) >= EPSILON as int,
        mv_mul_tuple(
            mv_inverse(mv_translation(x@, y@, z@)),
            mv_mul_tuple(mv_translation(x@, y@, z@), p@),
        ) == p@,
{
    lemma_translation_inverse(x@, y@, z@);
    let t = mv_translation(x@, y@, z@);
    let u = mv_translation(-x@, -y@, -z@);
    let one: int = SCALE as int;
    lemma_fx_mul_basics();
    let q = mv_mul_tuple(t, p@);
    assert(q.x == p@.x + x@);
    assert(q.y == p@.y + y@);
    assert(q.z == p@.z + z@);
    assert(q.w == one);
    let r = mv_mul_tuple(u, q);
    assert(r.x == p@.x);
    assert(r.y == p@.y);
    assert(r.z == p@.z);
    assert(r.w == one);
}

} // verus!
