use vstd::prelude::*;

verus! {

use vstd::seq_lib::*;
use crate::fixed::{Scalar, EPSILON};
use crate::precomputed_data::{PrecomputedData, PrecomputedDataView};
use crate::ray::{Ray, RayView, rv_position};
use crate::shape::{Shape, ShapeView, spec_normal_at, sv_approx_eq};
use crate::tuple::{tv_add, tv_dot, tv_neg, tv_scale};
use core::ops::Neg;

/// Mathematical image of one ray-shape hit record.
pub ghost struct IntersectionView {
    pub t: int,
    pub object: ShapeView,
}

/// One ray-shape hit record: the distance along the ray and the shape hit.
#[derive(Debug, Copy, Clone)]
pub struct Intersection {
    pub t: Scalar,
    pub object: Shape,
}

impl View for Intersection {
    type V = IntersectionView;

    open spec fn view(&self) -> IntersectionView {
        IntersectionView { t: self.t@, object: self.object@ }
    }
}

impl PartialEq for Intersection {
    fn eq(&self, other: &Intersection) -> (r: bool) {
        self.t.units() == other.t.units() && self.object == other.object
    }
}

impl vstd::std_specs::cmp::PartialEqSpecImpl for Intersection {
    open spec fn obeys_eq_spec() -> bool {
        true
    }

    open spec fn eq_spec(&self, other: &Intersection) -> bool {
        self@.t == other@.t && sv_approx_eq(self@.object, other@.object)
    }
}

/// The mathematical images of a run of hit records.
pub open spec fn views_of(s: Seq<Intersection>) -> Seq<IntersectionView> {
    s.map_values(|x: Intersection| x@)
}

/// Ascending by distance.
pub open spec fn sorted_by_t(s: Seq<IntersectionView>) -> bool {
    forall|i: int, j: int| 0 <= i < j < s.len() ==> (#[trigger] s[i]).t <= (#[trigger] s[j]).t
}

/// Mathematical image of an intersection collection: the sorted run and the
/// cached hit.
pub ghost struct IntersectionsView {
    pub seq: Seq<IntersectionView>,
    pub hit: Option<IntersectionView>,
}

/// What every reachable collection satisfies: the run is sorted, and the
/// cached hit is the record standing at the first non-negative position of
/// the run -- hence one with the least non-negative distance -- or nothing
/// when every distance is negative.
pub open spec fn iv_wf(v: IntersectionsView) -> bool {
    &&& sorted_by_t(v.seq)
    &&& match v.hit {
        None => forall|i: int| 0 <= i < v.seq.len() ==> (#[trigger] v.seq[i]).t < 0,
        Some(h) => h.t >= 0 && (exists|i: int|
            0 <= i < v.seq.len() && (#[trigger] v.seq[i]) == h && (forall|j: int|
                0 <= j < i ==> (#[trigger] v.seq[j]).t < 0)) && (forall|i: int|
            0 <= i < v.seq.len() && (#[trigger] v.seq[i]).t >= 0 ==> h.t <= v.seq[i].t),
    }
}

proof fn lemma_views_remove(s: Seq<Intersection>, i: int)
    requires
        0 <= i < s.len(),
    ensures
        views_of(s.remove(i)) == views_of(s).remove(i),
{
    assert(views_of(s.remove(i)) =~= views_of(s).remove(i));
}

proof fn lemma_views_push(s: Seq<Intersection>, x: Intersection)
    ensures
        views_of(s.push(x)) == views_of(s).push(x@),
{
    assert(views_of(s.push(x)) =~= views_of(s).push(x@));
}

proof fn lemma_views_concat(a: Seq<Intersection>, b: Seq<Intersection>)
    ensures
        views_of(a + b) == views_of(a) + views_of(b),
{
    assert(views_of(a + b) =~= views_of(a) + views_of(b));
}

/// Sort hit records ascending by distance, keeping exactly the same
/// records.  The scan below always moves the earliest of equal minima, so
/// records with equal distances keep their relative order.
fn sort_by_t(input: Vec<Intersection>) -> (r: Vec<Intersection>)
    ensures
        sorted_by_t(views_of(r@)),
        views_of(r@).to_multiset() == views_of(input@).to_multiset(),
        r@.len() == input@.len(),
{
    let mut v = input;
    let mut out: Vec<Intersection> = Vec::new();
    proof {
        assert(views_of(out@) =~= Seq::<IntersectionView>::empty());
        broadcast use vstd::seq_lib::group_to_multiset_ensures;

        assert(views_of(out@).to_multiset().add(views_of(v@).to_multiset()) =~= views_of(
            input@,
        ).to_multiset());
    }
    while v.len() > 0
        invariant
            views_of(out@).to_multiset().add(views_of(v@).to_multiset()) == views_of(
                input@,
            ).to_multiset(),
            out@.len() + v@.len() == input@.len(),
            sorted_by_t(views_of(out@)),
            forall|i: int, j: int|
                0 <= i < out@.len() && 0 <= j < v@.len() ==> (#[trigger] views_of(out@)[i]).t <= (
                #[trigger] views_of(v@)[j]).t,
        decreases v.len(),
    {
        let mut m: usize = 0;
        let mut k: usize = 1;
        while k < v.len()
            invariant
                0 <= m < v@.len(),
                m < k,
                k <= v@.len(),
                forall|j: int| 0 <= j < k ==> (#[trigger] views_of(v@)[m as int]).t <= views_of(
                    v@,
                )[j].t,
            decreases v@.len() - k,
        {
            if v[k].t.units() < v[m].t.units() {
                m = k;
            }
            k = k + 1;
        }
        let ghost old_v = v@;
        let ghost old_out = out@;
        let x = v.remove(m);
        out.push(x);
        proof {
            broadcast use vstd::seq_lib::group_to_multiset_ensures;

            lemma_views_remove(old_v, m as int);
            lemma_views_push(old_out, x);
            assert(views_of(old_v).contains(x@)) by {
                assert(views_of(old_v)[m as int] == x@);
            }
            assert(views_of(out@).to_multiset().add(views_of(v@).to_multiset()) =~= views_of(
                old_out,
            ).to_multiset().add(views_of(old_v).to_multiset()));
        }
    }
    out
}

/// An ordered collection of hit records with its cached nearest hit.
#[derive(Debug)]
pub struct Intersections {
    inner: Vec<Intersection>,
    current_hit: Option<Intersection>,
}

impl Intersections {
    #[verifier::type_invariant]
    spec fn twf(self) -> bool {
        iv_wf(self@)
    }
}

impl View for Intersections {
    type V = IntersectionsView;

    closed spec fn view(&self) -> IntersectionsView {
        IntersectionsView {
            seq: views_of(self.inner@),
            hit: match self.current_hit {
                None => None,
                Some(h) => Some(h@),
            },
        }
    }
}

impl Intersections {
    /// Gather hit records into a sorted collection and cache the hit: the
    /// record at the first non-negative position of the sorted run, if any.
    pub fn new(range: Vec<Intersection>) -> (r: Intersections)
        ensures
            iv_wf(r@),
            r@.seq.to_multiset() == views_of(range@).to_multiset(),
            r@.seq.len() == range@.len(),
    {
        let sorted_v = sort_by_t(range);
        let mut hit: Option<Intersection> = None;
        let mut i: usize = 0;
        while i < sorted_v.len()
            invariant
                0 <= i <= sorted_v@.len(),
                sorted_by_t(views_of(sorted_v@)),
                match hit {
                    None => forall|j: int|
                        0 <= j < i ==> (#[trigger] views_of(sorted_v@)[j]).t < 0,
                    Some(h) => h@.t >= 0 && (exists|j: int|
                        0 <= j < i && (#[trigger] views_of(sorted_v@)[j]) == h@ && (forall|
                            k: int,
                        |
                            0 <= k < j ==> (#[trigger] views_of(sorted_v@)[k]).t < 0)) && (forall|
                        j: int,
                    |
                        0 <= j < i && (#[trigger] views_of(sorted_v@)[j]).t >= 0 ==> h@.t
                            <= views_of(sorted_v@)[j].t),
                },
            decreases sorted_v@.len() - i,
        {
            proof {
                assert(views_of(sorted_v@)[i as int] == sorted_v@[i as int]@);
            }
            if hit.is_none() && sorted_v[i].t.units() >= 0 {
                hit = Some(sorted_v[i]);
            }
            i = i + 1;
        }
        Intersections { inner: sorted_v, current_hit: hit }
    }

    /// How many records the collection holds.
    pub fn len(&self) -> (r: usize)
        ensures
            r == self@.seq.len(),
    {
        self.inner.len()
    }

    /// The record at the given position in ascending order.
    pub fn at(&self, i: usize) -> (r: Intersection)
        requires
            i < self@.seq.len(),
        ensures
            r@ == self@.seq[i as int],
    {
        self.inner[i]
    }

    /// Merge another collection into this one, keeping order and hit cache
    /// consistent.
    pub fn extend(&mut self, range: Intersections)
        ensures
            iv_wf(final(self)@),
            final(self)@.seq.to_multiset() == old(self)@.seq.to_multiset().add(
                range@.seq.to_multiset(),
            ),
            final(self)@.seq.len() == old(self)@.seq.len() + range@.seq.len(),
    {
        let mut all: Vec<Intersection> = Vec::new();
        let mut i: usize = 0;
        while i < self.inner.len()
            invariant
                0 <= i <= self.inner@.len(),
                all@ == self.inner@.subrange(0, i as int),
            decreases self.inner@.len() - i,
        {
            all.push(self.inner[i]);
            i = i + 1;
        }
        proof {
            assert(all@ =~= self.inner@);
        }
        let ghost first_part = all@;
        let mut j: usize = 0;
        while j < range.inner.len()
            invariant
                0 <= j <= range.inner@.len(),
                all@ == first_part + range.inner@.subrange(0, j as int),
            decreases range.inner@.len() - j,
        {
            all.push(range.inner[j]);
            j = j + 1;
        }
        proof {
            assert(all@ =~= self.inner@ + range.inner@);
            lemma_views_concat(self.inner@, range.inner@);
            lemma_multiset_commutative(views_of(self.inner@), views_of(range.inner@));
        }
        let merged = Intersections::new(all);
        *self = merged;
    }

    /// The cached hit: the record at the first non-negative position of the
    /// run, which has the least non-negative distance, or nothing when every
    /// record lies behind the ray.
    pub fn hit(&self) -> (r: Option<Intersection>)
        ensures
            iv_wf(self@),
            match r {
                None => self@.hit is None,
                Some(h) => self@.hit == Some(h@),
            },
    {
        proof {
            use_type_invariant(self);
        }
        self.current_hit
    }
}

/// Everything shading needs about one chosen hit, derived from the hit
/// record and the ray that produced it.
pub open spec fn spec_prepare(i: IntersectionView, r: RayView) -> PrecomputedDataView {
    let point = rv_position(r, i.t);
    let eyev = tv_neg(r.direction);
    let base_normal = spec_normal_at(i.object, point);
    let inside = tv_dot(base_normal, eyev) < 0;
    let normalv = if inside {
        tv_neg(base_normal)
    } else {
        base_normal
    };
    PrecomputedDataView {
        t: i.t,
        object: i.object,
        point: point,
        eyev: eyev,
        normalv: normalv,
        inside: inside,
        over_point: tv_add(point, tv_scale(normalv, EPSILON as int)),
    }
}

impl Intersection {
    /// A hit record from a distance and the shape hit.
    pub fn new(t: Scalar, object: Shape) -> (r: Intersection)
        ensures
            r@ == (IntersectionView { t: t@, object: object@ }),
            r.t == t,
            r.object == object,
    {
        Intersection { t, object }
    }

    /// Derive the data shading needs from this hit and the ray that made it.
    pub fn prepare_computations(&self, ray: Ray) -> (r: PrecomputedData)
        ensures
            r@ == spec_prepare(self@, ray@),
    {
        let point = ray.position(self.t);
        let eyev = ray.direction.neg();
        let mut normalv = self.object.normal_at(point);
        let mut inside = false;
        if normalv.dot(&eyev) < Scalar::zero() {
            normalv = normalv.neg();
            inside = true;
        }
        let over_point = point + normalv * Scalar::epsilon();

        PrecomputedData::new(self.t, self.object, point, eyev, normalv, inside, over_point)
    }
}

} // verus!
