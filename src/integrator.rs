use vstd::prelude::*;

verus! {

/// What the scene and the struck surface's material did with one ray.
#[derive(Clone, Copy, Debug, PartialEq, Eq, Structural)]
pub enum Bounce {
    /// The ray hit nothing: it sees the sky.
    Miss,
    /// The ray hit a surface whose material absorbed it.
    Absorbed,
    /// The ray hit a surface whose material sent a new ray on, with an
    /// attenuation.
    Scattered,
}

/// What the radiance estimator of one light path does next.
#[derive(Clone, Copy, Debug, PartialEq, Eq, Structural)]
pub enum PathStep {
    /// Query the scene with the current ray; the value is the number of
    /// bounces that the path may still take, at least one.
    Trace(u32),
    /// The path ends and carries no light.
    Black,
    /// The path ends in the sky: its light is the sky's color for the last
    /// ray, multiplied by the attenuations gathered on the way.
    Sky,
}

/// First step of a path allowed `depth` bounces.
pub open spec fn start_spec(depth: u32) -> PathStep {
    if depth == 0 {
        PathStep::Black
    } else {
        PathStep::Trace(depth)
    }
}

/// Step after a scene query made with `remaining` bounces left.
pub open spec fn next_spec(remaining: u32, event: Bounce) -> PathStep {
    match event {
        Bounce::Miss => PathStep::Sky,
        Bounce::Absorbed => PathStep::Black,
        Bounce::Scattered => start_spec((remaining - 1) as u32),
    }
}

/// Where a path that stands at `step` goes when the scene queries it still
/// makes yield `events`, in order; events left over once it ends are unused.
pub open spec fn run_path(step: PathStep, events: Seq<Bounce>) -> PathStep
    decreases events.len(),
{
    match step {
        PathStep::Trace(n) => if events.len() == 0 || n == 0 {
            step
        } else {
            run_path(next_spec(n, events[0]), events.drop_first())
        },
        _ => step,
    }
}

/// Number of scene queries that the path makes from `step` on.
pub open spec fn queries(step: PathStep, events: Seq<Bounce>) -> nat
    decreases events.len(),
{
    match step {
        PathStep::Trace(n) => if events.len() == 0 || n == 0 {
            0
        } else {
            1 + queries(next_spec(n, events[0]), events.drop_first())
        },
        _ => 0,
    }
}

/// First step of the estimator for a ray allowed `depth` bounces: with no
/// bounce left the result is black, and the scene is not queried.
pub fn path_start(depth: u32) -> (r: PathStep)
    ensures
        r == start_spec(depth),
{
    if depth == 0 {
        PathStep::Black
    } else {
        PathStep::Trace(depth)
    }
}

/// Step after a scene query made with `remaining` bounces left: a miss ends
/// in the sky, an absorption in black, and a scatter traces the new ray with
/// one bounce less (black when none is left).
pub fn path_next(remaining: u32, event: Bounce) -> (r: PathStep)
    requires
        remaining > 0,
    ensures
        r == next_spec(remaining, event),
{
    match event {
        Bounce::Miss => PathStep::Sky,
        Bounce::Absorbed => PathStep::Black,
        Bounce::Scattered => path_start(remaining - 1),
    }
}

/// The `k`-th scene query is a miss, and all before it scattered.
pub open spec fn misses_after_scatters(events: Seq<Bounce>, k: int) -> bool {
    0 <= k < events.len() && events[k] == Bounce::Miss && forall|i: int|
        0 <= i < k ==> events[i] == Bounce::Scattered
}

/// A path allowed no bounce is black whatever the scene holds, and the scene
/// is not queried for it.
pub proof fn lemma_no_bounce_is_black(events: Seq<Bounce>)
    ensures
        run_path(start_spec(0), events) == PathStep::Black,
        queries(start_spec(0), events) == 0,
{
}

/// A path allowed `depth` bounces makes at most `depth` scene queries and
/// has ended (black or sky) once `depth` of them were made.
pub proof fn lemma_path_ends_within_depth(depth: u32, events: Seq<Bounce>)
    ensures
        queries(start_spec(depth), events) <= depth,
        events.len() >= depth ==> !(run_path(start_spec(depth), events) is Trace),
    decreases depth,
{
    if depth > 0 && events.len() > 0 {
        let rest = events.drop_first();
        assert(run_path(start_spec(depth), events) == run_path(next_spec(depth, events[0]), rest));
        assert(queries(start_spec(depth), events) == 1 + queries(next_spec(depth, events[0]), rest));
        if events[0] == Bounce::Scattered {
            lemma_path_ends_within_depth((depth - 1) as u32, rest);
        }
    }
}

/// A path allowed `depth` bounces ends in the sky exactly when one of its
/// first `depth` scene queries is a miss and every query before that one
/// scattered; otherwise, once ended, it is black.
pub proof fn lemma_sky_exactly_after_scatters(depth: u32, events: Seq<Bounce>)
    ensures
        run_path(start_spec(depth), events) == PathStep::Sky <==> exists|k: int|
            k < depth && #[trigger] misses_after_scatters(events, k),
    decreases depth,
{
    if depth == 0 || events.len() == 0 {
        assert(forall|k: int| !(k < depth && #[trigger] misses_after_scatters(events, k)));
    } else {
        let rest = events.drop_first();
        assert(run_path(start_spec(depth), events) == run_path(next_spec(depth, events[0]), rest));
        if events[0] == Bounce::Miss {
            assert(misses_after_scatters(events, 0));
        } else if events[0] == Bounce::Absorbed {
            assert forall|k: int| !(k < depth && #[trigger] misses_after_scatters(events, k)) by {
                if misses_after_scatters(events, k) && k > 0 {
                    assert(events[0] == Bounce::Scattered);
                }
            }
        } else {
            lemma_sky_exactly_after_scatters((depth - 1) as u32, rest);
            if run_path(start_spec(depth), events) == PathStep::Sky {
                let k2 = choose|k2: int| k2 < depth - 1 && #[trigger] misses_after_scatters(rest, k2);
                assert forall|i: int| 0 <= i < k2 + 1 implies events[i] == Bounce::Scattered by {
                    if i > 0 {
                        assert(rest[i - 1] == events[i]);
                    }
                }
                assert(misses_after_scatters(events, k2 + 1));
            }
            if exists|k: int| k < depth && #[trigger] misses_after_scatters(events, k) {
                let k = choose|k: int| k < depth && #[trigger] misses_after_scatters(events, k);
                assert(k != 0);
                assert forall|i: int| 0 <= i < k - 1 implies rest[i] == Bounce::Scattered by {
                    assert(events[i + 1] == Bounce::Scattered);
                }
                assert(misses_after_scatters(rest, k - 1));
            }
        }
    }
}

} // verus!
