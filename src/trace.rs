//! The integrator's decisions at each bounce of a path: when the depth budget
//! ends the path, and what follows from what the ray met in the scene.
use vstd::prelude::*;

verus! {

/// What a ray met when it was cast into the scene.
#[derive(Clone, Copy, Debug, PartialEq, Eq, Structural)]
pub enum Event {
    /// It hit nothing in the scene.
    Missed,
    /// It hit a surface whose material absorbed it.
    Absorbed,
    /// It hit a surface whose material scattered it into a new ray.
    Scattered,
}

/// What a bounce contributes to the colour of its path.
#[derive(Clone, Copy, Debug, PartialEq, Eq, Structural)]
pub enum Step {
    /// Black: the path ends here without light.
    Black,
    /// The sky gradient in the ray's direction: the path ends here.
    Sky,
    /// The attenuation times the colour of the scattered ray, traced with
    /// the given depth budget.
    Bounce(usize),
}

/// The step that a bounce with `depth` bounces left takes after `event`.
pub open spec fn step_of(depth: nat, event: Event) -> Step {
    if depth == 0 {
        Step::Black
    } else {
        match event {
            Event::Missed => Step::Sky,
            Event::Absorbed => Step::Black,
            Event::Scattered => Step::Bounce((depth - 1) as usize),
        }
    }
}

/// Whether a path with `depth` bounces left has used up its budget: it is
/// then black, and the ray is not cast at all.
pub fn exhausted(depth: usize) -> (r: bool)
    ensures
        r == (depth == 0),
{
    depth == 0
}

/// The step that a bounce with `depth` bounces left takes after `event`:
/// black whatever the event once the budget is used up; otherwise the sky
/// on a miss, black when absorbed, and a bounce with one less on a scatter.
pub fn step(depth: usize, event: Event) -> (r: Step)
    ensures
        r == step_of(depth as nat, event),
        depth == 0 ==> r == Step::Black,
        r matches Step::Bounce(d) ==> d < depth,
{
    if depth == 0 {
        Step::Black
    } else {
        match event {
            Event::Missed => Step::Sky,
            Event::Absorbed => Step::Black,
            Event::Scattered => Step::Bounce(depth - 1),
        }
    }
}

/// The number of bounces of a path that starts with `depth` bounces left
/// and meets `events` in turn, up to the step that ends it.
pub open spec fn bounces(depth: nat, events: Seq<Event>) -> nat
    decreases events.len(),
{
    if events.len() == 0 {
        0
    } else {
        match step_of(depth, events[0]) {
            Step::Bounce(d) => 1 + bounces(d as nat, events.drop_first()),
            _ => 0,
        }
    }
}

/// A path bounces at most as many times as its depth budget, whatever its
/// rays meet.
pub proof fn lemma_bounces_within_budget(depth: nat, events: Seq<Event>)
    ensures
        bounces(depth, events) <= depth,
    decreases events.len(),
{
    if events.len() > 0 {
        if let Step::Bounce(d) = step_of(depth, events[0]) {
            lemma_bounces_within_budget(d as nat, events.drop_first());
        }
    }
}

} // verus!
