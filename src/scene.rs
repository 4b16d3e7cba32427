//! Nearest-hit selection over the members of a scene.
//!
//! Each member is a sphere; the caller solves its quadratic and hands over the
//! nearer root (none where the discriminant is negative). The scan tests the
//! members in order against an interval whose upper end narrows to each hit
//! that is taken, so a later member can never win with a farther surface.
use vstd::prelude::*;
use crate::double::Double;
use crate::double::ZERO_BITS;

verus! {

/// A root is taken when it is neither below `t_min` nor above `t_max`.
pub open spec fn accepts(root: Double, t_min: Double, t_max: Double) -> bool {
    !root.lt_spec(t_min) && !t_max.lt_spec(root)
}

/// Member `i` has a root that the full interval `[t_min, t_max]` takes.
pub open spec fn valid_hit(roots: Seq<Option<Double>>, i: int, t_min: Double, t_max: Double) -> bool {
    &&& 0 <= i < roots.len()
    &&& roots[i] is Some
    &&& accepts(roots[i]->Some_0, t_min, t_max)
}

/// No bound and no root is a NaN.
pub open spec fn no_nan(roots: Seq<Option<Double>>, t_min: Double, t_max: Double) -> bool {
    &&& !t_min.nan()
    &&& !t_max.nan()
    &&& forall|i: int| 0 <= i < roots.len() && (#[trigger] roots[i]) is Some ==> !roots[i]->Some_0.nan()
}

/// Member `k` is the one the scan keeps among `roots`: a valid hit, no other
/// valid hit is nearer, and every later valid hit is strictly farther (of
/// equally near members the last one wins).
pub open spec fn nearest(roots: Seq<Option<Double>>, k: int, t_min: Double, t_max: Double) -> bool {
    &&& valid_hit(roots, k, t_min, t_max)
    &&& forall|j: int| #[trigger] valid_hit(roots, j, t_min, t_max) ==> {
        &&& roots[k]->Some_0.ordinal() <= roots[j]->Some_0.ordinal()
        &&& (j > k ==> roots[k]->Some_0.ordinal() < roots[j]->Some_0.ordinal())
    }
}

/// The member kept is never one that a valid hit lies strictly in front of:
/// of two surfaces along the ray, the nearer one wins.
pub proof fn lemma_nearer_surface_wins(
    roots: Seq<Option<Double>>,
    k: int,
    near: int,
    far: int,
    t_min: Double,
    t_max: Double,
)
    requires
        nearest(roots, k, t_min, t_max),
        valid_hit(roots, near, t_min, t_max),
        valid_hit(roots, far, t_min, t_max),
        roots[near]->Some_0.ordinal() < roots[far]->Some_0.ordinal(),
    ensures
        k != far,
        roots[k]->Some_0.ordinal() <= roots[near]->Some_0.ordinal(),
{
}

/// Whether a ray meets a sphere at all, given the discriminant of its
/// quadratic: it does unless the discriminant is negative.
pub fn meets_sphere(discriminant: Double) -> (r: bool)
    ensures
        r == !discriminant.lt_spec(Double { bits: ZERO_BITS }),
{
    !discriminant.lt(Double::zero())
}

/// Whether a sphere's nearer root counts as a hit in `[t_min, t_max]`.
pub fn root_in_range(root: Double, t_min: Double, t_max: Double) -> (r: bool)
    ensures
        r == accepts(root, t_min, t_max),
{
    !(root.lt(t_min) || t_max.lt(root))
}

/// Whether a ray strikes the front face of a surface, given the dot product
/// of its direction with the outward normal: it does when that product is
/// negative; otherwise the hit record flips the normal to face the ray.
pub fn faces_front(dot_outward: Double) -> (r: bool)
    ensures
        r == dot_outward.lt_spec(Double { bits: ZERO_BITS }),
{
    dot_outward.lt(Double::zero())
}

/// The index of the member whose surface the ray meets first within
/// `[t_min, t_max]`, or `None` for a miss.
pub fn nearest_hit(roots: &Vec<Option<Double>>, t_min: Double, t_max: Double) -> (r: Option<usize>)
    requires
        no_nan(roots@, t_min, t_max),
    ensures
        r is None <==> (forall|j: int| !#[trigger] valid_hit(roots@, j, t_min, t_max)),
        r matches Some(k) ==> nearest(roots@, k as int, t_min, t_max),
{
    let mut best: Option<usize> = None;
    let mut bound = t_max;
    let mut i: usize = 0;
    while i < roots.len()
        invariant
            i <= roots.len(),
            no_nan(roots@, t_min, t_max),
            best is None ==> bound == t_max && forall|j: int| 0 <= j < i ==> !#[trigger] valid_hit(roots@, j, t_min, t_max),
            best matches Some(k) ==> {
                &&& k < i
                &&& roots@[k as int] == Some(bound)
                &&& valid_hit(roots@, k as int, t_min, t_max)
                &&& forall|j: int| 0 <= j < i && #[trigger] valid_hit(roots@, j, t_min, t_max) ==> {
                    &&& bound.ordinal() <= roots@[j]->Some_0.ordinal()
                    &&& (j > k ==> bound.ordinal() < roots@[j]->Some_0.ordinal())
                }
            },
        decreases roots.len() - i,
    {
        if let Some(t) = roots[i] {
            assert(roots@[i as int] is Some);
            if root_in_range(t, t_min, bound) {
                best = Some(i);
                bound = t;
            }
        }
        i = i + 1;
    }
    proof {
        if let Some(k) = best {
            assert forall|j: int| #[trigger] valid_hit(roots@, j, t_min, t_max) implies {
                &&& roots@[k as int]->Some_0.ordinal() <= roots@[j]->Some_0.ordinal()
                &&& (j > k ==> roots@[k as int]->Some_0.ordinal() < roots@[j]->Some_0.ordinal())
            } by {
                assert(0 <= j < i);
            }
        } else {
            assert forall|j: int| !#[trigger] valid_hit(roots@, j, t_min, t_max) by {
                if valid_hit(roots@, j, t_min, t_max) {
                    assert(0 <= j < i);
                }
            }
        }
    }
    best
}

} // verus!
