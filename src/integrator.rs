use vstd::prelude::*;

verus! {

/// What became of a ray that was tested against the scene.
#[derive(Clone, Copy, Debug, PartialEq, Eq, Structural)]
pub enum Bounce {
    /// It hit nothing and escaped to the sky.
    Missed,
    /// It hit a surface whose material absorbed it.
    Absorbed,
    /// It hit a surface and was scattered into a new ray; the caller folds the
    /// material's attenuation into the path's throughput.
    Scattered,
}

/// What the integrator does next for a path.
#[derive(Clone, Copy, Debug, PartialEq, Eq, Structural)]
pub enum PathStep {
    /// Test the current ray against the scene and report the bounce.
    Trace,
    /// The path ends carrying no light: its bounce budget is spent, or it was
    /// absorbed.
    Black,
    /// The path ends in the sky: its light is the sky gradient for the last
    /// ray's direction times the throughput.
    Sky,
}

/// The bounce budget of one camera path: the iterative form of the recursive
/// integrator, which counts the depth down and stops at zero.
#[derive(Clone, Copy, Debug, PartialEq, Eq, Structural)]
pub struct PathState {
    /// Scene tests the path may still make.
    pub remaining: u32,
}

/// How a path with `depth` bounces left that has seen `events` ends, as the
/// recursive integrator defines it: black once the depth is used up, the sky
/// on a miss, black on absorption, and one level deeper on a scatter. `Trace`
/// when the events run out first.
pub open spec fn path_end(depth: nat, events: Seq<Bounce>) -> PathStep
    decreases events.len(),
{
    if depth == 0 {
        PathStep::Black
    } else if events.len() == 0 {
        PathStep::Trace
    } else {
        match events[0] {
            Bounce::Missed => PathStep::Sky,
            Bounce::Absorbed => PathStep::Black,
            Bounce::Scattered => path_end((depth - 1) as nat, events.drop_first()),
        }
    }
}

/// The first step of a path with `depth` bounces allowed.
pub open spec fn first_step(depth: u32) -> PathStep {
    if depth == 0 {
        PathStep::Black
    } else {
        PathStep::Trace
    }
}

/// The budget left and the next step after `event`, with `remaining` tests
/// left before it.
pub open spec fn next_step(remaining: u32, event: Bounce) -> (u32, PathStep) {
    if remaining == 0 {
        (0, PathStep::Black)
    } else {
        match event {
            Bounce::Missed => (remaining, PathStep::Sky),
            Bounce::Absorbed => (remaining, PathStep::Black),
            Bounce::Scattered => ((remaining - 1) as u32, first_step((remaining - 1) as u32)),
        }
    }
}

/// The step at which the loop stops when fed `events` from the given state,
/// or the pending step when the events run out.
pub open spec fn run(remaining: u32, step: PathStep, events: Seq<Bounce>) -> PathStep
    decreases events.len(),
{
    if step != PathStep::Trace || events.len() == 0 {
        step
    } else {
        run(next_step(remaining, events[0]).0, next_step(remaining, events[0]).1, events.drop_first())
    }
}

impl PathState {
    /// A path that may test the scene `max_depth` times, and its first step.
    pub fn start(max_depth: u32) -> (r: (PathState, PathStep))
        ensures
            r.0.remaining == max_depth,
            r.1 == first_step(max_depth),
            max_depth == 0 ==> r.1 == PathStep::Black,
    {
        let step = if max_depth == 0 {
            PathStep::Black
        } else {
            PathStep::Trace
        };
        (PathState { remaining: max_depth }, step)
    }

    /// Takes in what happened to the last traced ray and says what to do next.
    pub fn advance(&mut self, event: Bounce) -> (step: PathStep)
        ensures
            (final(self).remaining, step) == next_step(old(self).remaining, event),
    {
        if self.remaining == 0 {
            return PathStep::Black;
        }
        match event {
            Bounce::Missed => PathStep::Sky,
            Bounce::Absorbed => PathStep::Black,
            Bounce::Scattered => {
                self.remaining = self.remaining - 1;
                if self.remaining == 0 {
                    PathStep::Black
                } else {
                    PathStep::Trace
                }
            },
        }
    }
}

/// Driving a path from `start` with `advance` ends exactly as the recursive
/// integrator does, for every sequence of bounces.
pub proof fn lemma_loop_matches_recursion(depth: u32, events: Seq<Bounce>)
    ensures
        run(depth, first_step(depth), events) == path_end(depth as nat, events),
    decreases events.len(),
{
    if depth != 0 && events.len() != 0 {
        let next = next_step(depth, events[0]);
        assert(run(depth, PathStep::Trace, events) == run(next.0, next.1, events.drop_first()));
        if events[0] == Bounce::Scattered {
            lemma_loop_matches_recursion((depth - 1) as u32, events.drop_first());
        }
    }
}

/// A path ends after at most `depth` scene tests: once it has seen `depth`
/// bounces it asks for no further trace.
pub proof fn lemma_path_ends_within_depth(depth: nat, events: Seq<Bounce>)
    requires
        events.len() >= depth,
    ensures
        path_end(depth, events) != PathStep::Trace,
    decreases events.len(),
{
    if depth > 0 && events[0] == Bounce::Scattered {
        lemma_path_ends_within_depth((depth - 1) as nat, events.drop_first());
    }
}

/// With no bounce budget a path is black, whatever the scene would do.
pub proof fn lemma_zero_depth_is_black(events: Seq<Bounce>)
    ensures
        run(0, first_step(0), events) == PathStep::Black,
        path_end(0, events) == PathStep::Black,
{
}

} // verus!
