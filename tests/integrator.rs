use raytracing::integrator::{Bounce, PathState, PathStep};

#[test]
fn path_with_budget_starts_by_tracing() {
    let (state, step) = PathState::start(3);
    assert_eq!(step, PathStep::Trace);
    assert_eq!(state.remaining, 3);
}

#[test]
fn miss_ends_in_sky() {
    let (mut state, _) = PathState::start(2);
    assert_eq!(state.advance(Bounce::Missed), PathStep::Sky);
}

#[test]
fn absorption_ends_black() {
    let (mut state, _) = PathState::start(2);
    assert_eq!(state.advance(Bounce::Absorbed), PathStep::Black);
}

#[test]
fn scatters_spend_the_budget() {
    let (mut state, _) = PathState::start(2);
    assert_eq!(state.advance(Bounce::Scattered), PathStep::Trace);
    assert_eq!(state.remaining, 1);
    assert_eq!(state.advance(Bounce::Scattered), PathStep::Black);
    assert_eq!(state.remaining, 0);
    assert_eq!(state.advance(Bounce::Missed), PathStep::Black);
}

#[test]
fn scatter_then_miss_reaches_sky() {
    let (mut state, _) = PathState::start(12);
    assert_eq!(state.advance(Bounce::Scattered), PathStep::Trace);
    assert_eq!(state.advance(Bounce::Scattered), PathStep::Trace);
    assert_eq!(state.advance(Bounce::Missed), PathStep::Sky);
    assert_eq!(state.remaining, 10);
}

#[test]
fn zero_depth_path_is_black() {
    let (state, step) = PathState::start(0);
    assert_eq!(step, PathStep::Black);
    assert_eq!(state.remaining, 0);
}
