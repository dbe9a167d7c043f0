use pathtracer::integrator::{path_next, path_start, Bounce, PathStep};

/// Runs the estimator's decisions over a fixed list of scene outcomes and
/// returns how the path ended and how many scene queries it made.
fn run(depth: u32, events: &[Bounce]) -> (PathStep, usize) {
    let mut step = path_start(depth);
    let mut used = 0;
    while let PathStep::Trace(n) = step {
        if used == events.len() {
            break;
        }
        step = path_next(n, events[used]);
        used += 1;
    }
    (step, used)
}

#[test]
fn zero_depth_is_black_without_query() {
    assert_eq!(path_start(0), PathStep::Black);
    assert_eq!(run(0, &[Bounce::Miss, Bounce::Miss]), (PathStep::Black, 0));
}

#[test]
fn positive_depth_queries_scene() {
    assert_eq!(path_start(1), PathStep::Trace(1));
    assert_eq!(path_start(50), PathStep::Trace(50));
}

#[test]
fn each_outcome_of_a_query() {
    assert_eq!(path_next(3, Bounce::Miss), PathStep::Sky);
    assert_eq!(path_next(3, Bounce::Absorbed), PathStep::Black);
    assert_eq!(path_next(3, Bounce::Scattered), PathStep::Trace(2));
    assert_eq!(path_next(1, Bounce::Scattered), PathStep::Black);
}

#[test]
fn endless_scattering_stops_at_depth() {
    let events = vec![Bounce::Scattered; 10];
    assert_eq!(run(4, &events), (PathStep::Black, 4));
}

#[test]
fn sky_after_scatters_within_depth() {
    let events = [Bounce::Scattered, Bounce::Scattered, Bounce::Miss];
    assert_eq!(run(3, &events), (PathStep::Sky, 3));
    assert_eq!(run(2, &events), (PathStep::Black, 2));
}

#[test]
fn absorption_ends_path() {
    let events = [Bounce::Scattered, Bounce::Absorbed, Bounce::Miss];
    assert_eq!(run(5, &events), (PathStep::Black, 2));
}
