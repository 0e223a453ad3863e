use vstd::prelude::*;

verus! {

/// What the window loop reports to the sample schedule.
#[derive(Clone, Copy, Debug, PartialEq, Eq, Structural)]
pub enum ViewerEvent {
    /// The user closed the window or pressed Escape.
    CloseRequested,
    /// Presenting or resizing the frame buffer failed.
    SurfaceFailed,
    /// Input was processed; the loop may do more work.
    InputProcessed,
}

/// What the window loop does next.
#[derive(Clone, Copy, Debug, PartialEq, Eq, Structural)]
pub enum ViewerAction {
    /// Leave the event loop.
    Exit,
    /// Render one more sample per pixel, add it to the running sums, and show
    /// the sums divided by `samples`, the number of passes so far.
    Render { samples: u32 },
    /// All passes are done: report the total time, once.
    ReportFinished,
    /// Nothing to do.
    Wait,
}

/// The progressive sample schedule: one pass of one sample per pixel at a
/// time, until `target` passes are in.
#[derive(Clone, Copy, Debug, PartialEq, Eq, Structural)]
pub struct Progress {
    /// Passes rendered so far.
    pub samples: u32,
    /// Passes to render in all.
    pub target: u32,
    /// Whether completion has been reported.
    pub reported: bool,
}

/// The schedule after `event`, and the action it calls for.
pub open spec fn progress_step(p: Progress, event: ViewerEvent) -> (Progress, ViewerAction) {
    match event {
        ViewerEvent::CloseRequested => (p, ViewerAction::Exit),
        ViewerEvent::SurfaceFailed => (p, ViewerAction::Exit),
        ViewerEvent::InputProcessed => if p.samples < p.target {
            (Progress { samples: (p.samples + 1) as u32, ..p }, ViewerAction::Render { samples: (p.samples + 1) as u32 })
        } else if !p.reported {
            (Progress { reported: true, ..p }, ViewerAction::ReportFinished)
        } else {
            (p, ViewerAction::Wait)
        },
    }
}

/// The schedule after each of `events` in turn.
pub open spec fn progress_after(p: Progress, events: Seq<ViewerEvent>) -> Progress
    decreases events.len(),
{
    if events.len() == 0 {
        p
    } else {
        progress_after(progress_step(p, events[0]).0, events.drop_first())
    }
}

/// How many of the actions called for by `events` are render passes.
pub open spec fn passes_in(p: Progress, events: Seq<ViewerEvent>) -> nat
    decreases events.len(),
{
    if events.len() == 0 {
        0
    } else {
        (if progress_step(p, events[0]).1 is Render {
            1nat
        } else {
            0nat
        }) + passes_in(progress_step(p, events[0]).0, events.drop_first())
    }
}

/// From any schedule with no more passes than its target, every sequence of
/// events adds exactly one to the count per render pass and never passes the
/// target.
pub proof fn lemma_passes_counted(p: Progress, events: Seq<ViewerEvent>)
    requires
        p.samples <= p.target,
    ensures
        progress_after(p, events).samples == p.samples + passes_in(p, events),
        progress_after(p, events).samples <= p.target,
        progress_after(p, events).target == p.target,
    decreases events.len(),
{
    if events.len() > 0 {
        lemma_passes_counted(progress_step(p, events[0]).0, events.drop_first());
    }
}

/// Starting from no passes, the divisor a render pass announces is the number
/// of passes summed so far, that pass included, and at most `target` passes
/// are ever rendered: the running sums are never divided by a wrong count.
pub proof fn lemma_divisor_is_pass_count(target: u32, events: Seq<ViewerEvent>, e: ViewerEvent)
    ensures
        ({
            let before = progress_after(Progress { samples: 0, target, reported: false }, events);
            progress_step(before, e).1 matches ViewerAction::Render { samples }
                ==> samples == passes_in(Progress { samples: 0, target, reported: false }, events) + 1
                && samples <= target
        }),
{
    lemma_passes_counted(Progress { samples: 0, target, reported: false }, events);
}

impl Progress {
    /// A schedule of `target` passes with none done.
    pub fn new(target: u32) -> (r: Progress)
        ensures
            r == (Progress { samples: 0, target, reported: false }),
    {
        Progress { samples: 0, target, reported: false }
    }

    /// Takes in one event of the window loop and says what to do.
    pub fn on_event(&mut self, event: ViewerEvent) -> (action: ViewerAction)
        ensures
            (*final(self), action) == progress_step(*old(self), event),
    {
        match event {
            ViewerEvent::CloseRequested => ViewerAction::Exit,
            ViewerEvent::SurfaceFailed => ViewerAction::Exit,
            ViewerEvent::InputProcessed => {
                if self.samples < self.target {
                    self.samples = self.samples + 1;
                    ViewerAction::Render { samples: self.samples }
                } else if !self.reported {
                    self.reported = true;
                    ViewerAction::ReportFinished
                } else {
                    ViewerAction::Wait
                }
            },
        }
    }
}

} // verus!
