//! The radiance recursion policy.
//!
//! Casting a ray is floating-point work and lives with the renderer; what the
//! recursive radiance accumulator *decides* at each bounce does not. Given the
//! remaining bounce budget and what the scene reported for the cast — a miss,
//! a hit whose material absorbed the ray, or a hit whose material re-emitted
//! it — the next step is fixed: a spent budget yields black whatever happened,
//! a miss yields the background gradient, an absorbed ray yields black, and a
//! scattered ray folds in the material's attenuation and recurses with one
//! bounce fewer. The budget is the sole bound on recursion depth, so any path
//! terminates within the initial budget.

use vstd::prelude::*;

verus! {

/// What the scene and the struck material reported for one cast ray.
#[derive(Clone, Copy, Debug, PartialEq, Eq, Structural)]
pub enum PathEvent {
    /// The ray met no surface within the valid parameter range.
    Miss,
    /// The ray met a surface whose material absorbed it.
    Absorbed,
    /// The ray met a surface whose material re-emitted it as a new ray.
    Scattered,
}

/// What the radiance accumulator does next for one cast ray.
#[derive(Clone, Copy, Debug, PartialEq, Eq, Structural)]
pub enum PathStep {
    /// Return the background gradient for this ray.
    EmitBackground,
    /// Return black: the bounce budget is spent or the ray was absorbed.
    EmitBlack,
    /// Fold in the material's attenuation and recurse on the re-emitted ray
    /// with the carried budget.
    Bounce(u32),
}

/// The color class a whole radiance path ends in.
#[derive(Clone, Copy, Debug, PartialEq, Eq, Structural)]
pub enum PathTerminal {
    /// The path escaped into the background gradient.
    Background,
    /// The path ended in black: its budget ran out or it was absorbed.
    Black,
}

/// One decision of the radiance recursion: with no budget left the answer is
/// black regardless of the event; otherwise a miss emits the background, an
/// absorbed ray emits black, and a scattered ray recurses with one bounce
/// fewer.
pub fn radiance_step(depth: u32, event: PathEvent) -> (r: PathStep)
    ensures
        depth == 0 ==> r == PathStep::EmitBlack,
        depth > 0 && event == PathEvent::Miss ==> r == PathStep::EmitBackground,
        depth > 0 && event == PathEvent::Absorbed ==> r == PathStep::EmitBlack,
        depth > 0 && event == PathEvent::Scattered ==> r == PathStep::Bounce((depth - 1) as u32),
{
    if depth == 0 {
        PathStep::EmitBlack
    } else {
        match event {
            PathEvent::Miss => PathStep::EmitBackground,
            PathEvent::Absorbed => PathStep::EmitBlack,
            PathEvent::Scattered => PathStep::Bounce(depth - 1),
        }
    }
}

/// The terminal a radiance path reaches from budget `depth` along the given
/// events. A path whose events run out without reaching a terminal is counted
/// as absorbed.
pub open spec fn path_terminal(depth: nat, events: Seq<PathEvent>) -> PathTerminal
    decreases depth,
{
    if depth == 0 || events.len() == 0 {
        PathTerminal::Black
    } else {
        match events[0] {
            PathEvent::Miss => PathTerminal::Background,
            PathEvent::Absorbed => PathTerminal::Black,
            PathEvent::Scattered => path_terminal((depth - 1) as nat, events.skip(1)),
        }
    }
}

/// How many scatter bounces a radiance path takes from budget `depth` along
/// the given events.
pub open spec fn path_bounces(depth: nat, events: Seq<PathEvent>) -> nat
    decreases depth,
{
    if depth == 0 || events.len() == 0 {
        0
    } else {
        match events[0] {
            PathEvent::Scattered => 1 + path_bounces((depth - 1) as nat, events.skip(1)),
            _ => 0,
        }
    }
}

/// Termination law: the bounce budget is the sole bound on recursion, and it
/// does bound it — no path takes more scatter bounces than its budget,
/// whatever the scene reports.
pub proof fn lemma_bounces_within_budget(depth: nat, events: Seq<PathEvent>)
    ensures
        path_bounces(depth, events) <= depth,
    decreases depth,
{
    if depth > 0 && events.len() > 0 && events[0] == PathEvent::Scattered {
        lemma_bounces_within_budget((depth - 1) as nat, events.skip(1));
    }
}

/// Black-at-zero law: with a spent budget every path ends black, whatever the
/// scene would have reported.
pub proof fn lemma_zero_budget_is_black(events: Seq<PathEvent>)
    ensures
        path_terminal(0, events) == PathTerminal::Black,
        path_bounces(0, events) == 0,
{
}

/// Replay the bounce policy over a recorded event sequence: the terminal the
/// path reaches and the number of scatter bounces it took, which never
/// exceeds the budget.
pub fn trace_path(depth: u32, events: &Vec<PathEvent>) -> (r: (PathTerminal, u32))
    ensures
        r.0 == path_terminal(depth as nat, events@),
        r.1 as nat == path_bounces(depth as nat, events@),
        r.1 <= depth,
        depth == 0 ==> r.0 == PathTerminal::Black,
{
    proof {
        assert(events@.skip(0) =~= events@);
    }
    let mut i: usize = 0;
    let mut remaining: u32 = depth;
    loop
        invariant
            i <= events@.len(),
            remaining <= depth,
            path_terminal(depth as nat, events@) == path_terminal(
                remaining as nat,
                events@.skip(i as int),
            ),
            path_bounces(depth as nat, events@) == (depth - remaining) as nat + path_bounces(
                remaining as nat,
                events@.skip(i as int),
            ),
        decreases events@.len() - i,
    {
        if remaining == 0 || i == events.len() {
            return (PathTerminal::Black, depth - remaining);
        }
        let event = events[i];
        proof {
            assert(events@.skip(i as int)[0] == events@[i as int]);
            assert(events@.skip(i as int).skip(1) =~= events@.skip(i as int + 1));
        }
        match event {
            PathEvent::Miss => {
                return (PathTerminal::Background, depth - remaining);
            },
            PathEvent::Absorbed => {
                return (PathTerminal::Black, depth - remaining);
            },
            PathEvent::Scattered => {
                remaining = remaining - 1;
                i = i + 1;
            },
        }
    }
}

} // verus!
