//! Control of the radiance estimate along one camera path.
//!
//! A path starts with a bounce budget. While budget is left the caller casts
//! the ray into the scene and reports what it met; the estimate then either
//! ends (sky colour on a miss, black when absorbed or out of budget) or
//! bounces: the caller multiplies the rest of the estimate by the material's
//! attenuation and goes on from the hit point with one bounce less.
use vstd::prelude::*;

verus! {

/// What a ray met in the scene.
#[derive(Clone, Copy, Debug, PartialEq, Eq, Structural)]
pub enum Surface {
    /// Nothing: the ray leaves the scene.
    Miss,
    /// A surface that swallowed the ray.
    Absorbed,
    /// A surface that sent the ray on.
    Scattered,
}

/// What to do before the next cast.
#[derive(Clone, Copy, Debug, PartialEq, Eq, Structural)]
pub enum Action {
    /// Cast the ray into the scene.
    Cast,
    /// Stop: the budget is spent and no more light is gathered.
    Black,
}

/// How the estimate goes on after a cast.
#[derive(Clone, Copy, Debug, PartialEq, Eq, Structural)]
pub enum Outcome {
    /// The background gradient seen along the ray.
    Sky,
    /// No light.
    Black,
    /// Attenuate, and continue along the scattered ray with this budget.
    Bounce { depth: usize },
}

pub open spec fn action_spec(depth: usize) -> Action {
    if depth == 0 {
        Action::Black
    } else {
        Action::Cast
    }
}

pub open spec fn outcome_spec(depth: usize, met: Surface) -> Outcome
    recommends
        depth > 0,
{
    match met {
        Surface::Miss => Outcome::Sky,
        Surface::Absorbed => Outcome::Black,
        Surface::Scattered => Outcome::Bounce { depth: (depth - 1) as usize },
    }
}

/// The first decision of every step: with no budget left the estimate is
/// black whatever the ray and the scene, and nothing is cast.
pub fn next_action(depth: usize) -> (r: Action)
    ensures
        r == action_spec(depth),
        depth == 0 <==> r == Action::Black,
{
    if depth == 0 {
        Action::Black
    } else {
        Action::Cast
    }
}

/// The decision after a cast made with `depth` bounces left.
pub fn after_cast(depth: usize, met: Surface) -> (r: Outcome)
    requires
        depth > 0,
    ensures
        r == outcome_spec(depth, met),
        r matches Outcome::Bounce { depth: d } ==> d < depth,
{
    match met {
        Surface::Miss => Outcome::Sky,
        Surface::Absorbed => Outcome::Black,
        Surface::Scattered => Outcome::Bounce { depth: depth - 1 },
    }
}

/// How many rays a path casts when the scene answers its casts in turn with
/// `met` (a path still going when the answers run out counts those made).
pub open spec fn casts(depth: usize, met: Seq<Surface>) -> nat
    decreases met.len(),
{
    if action_spec(depth) == Action::Black || met.len() == 0 {
        0
    } else {
        match outcome_spec(depth, met[0]) {
            Outcome::Bounce { depth: d } => 1 + casts(d, met.drop_first()),
            _ => 1,
        }
    }
}

/// A path starting with a budget of `depth` bounces casts at most `depth`
/// rays, whatever the scene answers: the estimate always terminates within
/// its budget.
pub proof fn lemma_casts_within_budget(depth: usize, met: Seq<Surface>)
    ensures
        casts(depth, met) <= depth,
    decreases met.len(),
{
    if action_spec(depth) != Action::Black && met.len() > 0 {
        if let Outcome::Bounce { depth: d } = outcome_spec(depth, met[0]) {
            lemma_casts_within_budget(d, met.drop_first());
        }
    }
}

} // verus!
