use vstd::prelude::*;

verus! {

/// What the integrator has learned about the current ray.
#[derive(PartialEq, Eq, Structural, Clone, Copy, Debug)]
pub enum Event {
    /// Nothing yet: the scene has not been queried for this ray.
    Fresh,
    /// The ray hit nothing.
    Missed,
    /// The ray hit a surface whose material absorbed it.
    Absorbed,
    /// The ray hit a surface whose material scattered it.
    Scattered,
}

/// What the integrator does next.
#[derive(PartialEq, Eq, Structural, Clone, Copy, Debug)]
pub enum Step {
    /// Stop with black.
    Black,
    /// Ask the scene for the nearest hit of the ray, then its material.
    Query,
    /// Stop with the sky gradient for the ray's direction.
    Sky,
    /// Follow the scattered ray with the given remaining bounce budget, and
    /// tint what it brings back by the attenuation.
    Bounce(i32),
}

/// The integrator's rule: an exhausted budget gives black whatever the scene
/// holds; otherwise the scene is queried, a miss shows the sky, an absorption
/// gives black and a scatter is followed with one bounce less.
pub open spec fn step_rule(depth: i32, event: Event) -> Step {
    if depth <= 0 {
        Step::Black
    } else {
        match event {
            Event::Fresh => Step::Query,
            Event::Missed => Step::Sky,
            Event::Absorbed => Step::Black,
            Event::Scattered => Step::Bounce((depth - 1) as i32),
        }
    }
}

/// The next step of the colour integrator for a ray with `depth` bounces left.
pub fn next_step(depth: i32, event: Event) -> (r: Step)
    ensures
        r == step_rule(depth, event),
        depth <= 0 ==> r == Step::Black,
        r matches Step::Bounce(d) ==> 0 <= d < depth,
{
    if depth <= 0 {
        return Step::Black;
    }
    match event {
        Event::Fresh => Step::Query,
        Event::Missed => Step::Sky,
        Event::Absorbed => Step::Black,
        Event::Scattered => Step::Bounce(depth - 1),
    }
}

/// The number of bounces that a budget of `depth` allows, whatever the scene.
pub open spec fn max_bounces(depth: i32) -> nat {
    if depth <= 0 {
        0
    } else {
        depth as nat
    }
}

/// Every bounce uses up one unit of the budget, so a ray is followed through
/// at most `max_bounces(depth)` scatterings before the integrator stops.
pub proof fn lemma_bounce_spends_budget(depth: i32, event: Event)
    ensures
        step_rule(depth, event) matches Step::Bounce(d) ==> max_bounces(d) + 1 == max_bounces(
            depth,
        ),
        max_bounces(depth) == 0 ==> !(step_rule(depth, event) is Bounce),
{
}

} // verus!
