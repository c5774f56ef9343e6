use vstd::prelude::*;

verus! {

/// Something that happens to a one-frame capture session.
#[derive(Clone, Copy, Debug, PartialEq, Eq, Structural)]
pub enum CaptureEvent {
    /// The caller asks to start capturing.
    Start,
    /// The compositor reports a frame in the pool.
    FrameArrived,
    /// Someone asks to close the session and its frame pool.
    Close,
}

/// What the owner of the session does in response to an event.
#[derive(Clone, Copy, Debug, PartialEq, Eq, Structural)]
pub enum CaptureAction {
    /// Start the capture session.
    StartCapture,
    /// Take the next frame from the pool and hand it over.
    TakeFrame,
    /// Close the session, then the frame pool.
    Release,
    /// Do nothing.
    Ignore,
}

/// The state of a one-frame capture session.
#[derive(Clone, Copy, Debug, PartialEq, Eq, Structural)]
pub struct CaptureLifecycle {
    pub started: bool,
    pub frame_taken: bool,
    pub closed: bool,
}

/// A session starts once, takes the first frame that arrives while it runs
/// and no other, and is released by the first close request only.
pub open spec fn spec_step(s: CaptureLifecycle, e: CaptureEvent) -> (CaptureLifecycle, CaptureAction) {
    match e {
        CaptureEvent::Start => if !s.started && !s.closed {
            (CaptureLifecycle { started: true, ..s }, CaptureAction::StartCapture)
        } else {
            (s, CaptureAction::Ignore)
        },
        CaptureEvent::FrameArrived => if s.started && !s.frame_taken && !s.closed {
            (CaptureLifecycle { frame_taken: true, ..s }, CaptureAction::TakeFrame)
        } else {
            (s, CaptureAction::Ignore)
        },
        CaptureEvent::Close => if !s.closed {
            (CaptureLifecycle { closed: true, ..s }, CaptureAction::Release)
        } else {
            (s, CaptureAction::Ignore)
        },
    }
}

pub open spec fn initial_lifecycle() -> CaptureLifecycle {
    CaptureLifecycle { started: false, frame_taken: false, closed: false }
}

/// The state after `events` from `s`, with the number of frames taken and
/// the number of releases done on the way.
pub open spec fn run(s: CaptureLifecycle, events: Seq<CaptureEvent>) -> (CaptureLifecycle, nat, nat)
    decreases events.len(),
{
    if events.len() == 0 {
        (s, 0, 0)
    } else {
        let (next, action) = spec_step(s, events[0]);
        let (last, taken, released) = run(next, events.skip(1));
        (
            last,
            taken + if action == CaptureAction::TakeFrame {
                1nat
            } else {
                0nat
            },
            released + if action == CaptureAction::Release {
                1nat
            } else {
                0nat
            },
        )
    }
}

impl CaptureLifecycle {
    /// A session that has not started.
    pub fn new() -> (r: CaptureLifecycle)
        ensures
            r == initial_lifecycle(),
    {
        CaptureLifecycle { started: false, frame_taken: false, closed: false }
    }

    /// Records `event` and says what to do about it.
    pub fn handle(&mut self, event: CaptureEvent) -> (r: CaptureAction)
        ensures
            (*final(self), r) == spec_step(*old(self), event),
    {
        match event {
            CaptureEvent::Start => {
                if !self.started && !self.closed {
                    self.started = true;
                    CaptureAction::StartCapture
                } else {
                    CaptureAction::Ignore
                }
            },
            CaptureEvent::FrameArrived => {
                if self.started && !self.frame_taken && !self.closed {
                    self.frame_taken = true;
                    CaptureAction::TakeFrame
                } else {
                    CaptureAction::Ignore
                }
            },
            CaptureEvent::Close => {
                if !self.closed {
                    self.closed = true;
                    CaptureAction::Release
                } else {
                    CaptureAction::Ignore
                }
            },
        }
    }
}

proof fn lemma_run_counts(s: CaptureLifecycle, events: Seq<CaptureEvent>)
    ensures
        ({
            let (last, taken, released) = run(s, events);
            &&& s.frame_taken ==> last.frame_taken
            &&& s.closed ==> last.closed
            &&& taken == if last.frame_taken && !s.frame_taken {
                1nat
            } else {
                0nat
            }
            &&& released == if last.closed && !s.closed {
                1nat
            } else {
                0nat
            }
        }),
    decreases events.len(),
{
    if events.len() > 0 {
        let (next, action) = spec_step(s, events[0]);
        lemma_run_counts(next, events.skip(1));
    }
}

/// Whatever callbacks and close requests arrive, in any number and order, a
/// session takes at most one frame and releases its session and frame pool
/// at most once; and a session that is started, receives a frame and is
/// closed has taken exactly one frame and released exactly once, whatever
/// follows.
pub proof fn lemma_one_frame_one_release(events: Seq<CaptureEvent>)
    ensures
        run(initial_lifecycle(), events).1 <= 1,
        run(initial_lifecycle(), events).2 <= 1,
        run(
            initial_lifecycle(),
            seq![CaptureEvent::Start, CaptureEvent::FrameArrived, CaptureEvent::Close] + events,
        ).1 == 1,
        run(
            initial_lifecycle(),
            seq![CaptureEvent::Start, CaptureEvent::FrameArrived, CaptureEvent::Close] + events,
        ).2 == 1,
{
    lemma_run_counts(initial_lifecycle(), events);
    let all = seq![CaptureEvent::Start, CaptureEvent::FrameArrived, CaptureEvent::Close] + events;
    let done = CaptureLifecycle { started: true, frame_taken: true, closed: true };
    lemma_run_counts(done, events);
    assert(all.skip(1) =~= seq![CaptureEvent::FrameArrived, CaptureEvent::Close] + events);
    assert(all.skip(1).skip(1) =~= seq![CaptureEvent::Close] + events);
    assert(all.skip(1).skip(1).skip(1) =~= events);
    reveal_with_fuel(run, 4);
}

} // verus!
