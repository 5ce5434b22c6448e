//! The decisions of the frame loop: how a frame proceeds from the request to
//! redraw to the presented image, when the next redraw is due, which surface
//! format is taken, and what a resize makes of the surface.
//!
//! The loop itself belongs to whoever owns the window and the device. It
//! tells the driver what happened, and does what the driver answers.

use vstd::prelude::*;

use crate::render::gpu::{SurfaceConfiguration, TextureFormat};

verus! {

/// How fast frames may follow one another.
#[derive(Clone, Copy, Debug, PartialEq, Eq, Structural)]
pub enum FramerateLimit {
    Unlimited,
    Limited(usize),
}

/// The nanoseconds of a second.
pub const NANOS_PER_SECOND: u128 = 1_000_000_000;

/// What the loop does once the events of an iteration are handled.
#[derive(Clone, Copy, Debug, PartialEq, Eq, Structural)]
pub enum Pacing {
    /// Request a redraw now.
    Redraw,
    /// Wait for so many nanoseconds before looking again.
    Wait(u128),
}

impl FramerateLimit {
    /// The least time from one frame to the next, in nanoseconds.
    pub open spec fn frame_nanos(self) -> int {
        match self {
            FramerateLimit::Unlimited => 0,
            FramerateLimit::Limited(fps) => NANOS_PER_SECOND as int / fps as int,
        }
    }

    /// What is due when `elapsed` nanoseconds have passed since the last
    /// frame: a redraw if the frame time has passed, which without a limit it
    /// always has, and else a wait for the rest of it.
    pub open spec fn due(self, elapsed: u128) -> Pacing {
        if elapsed >= self.frame_nanos() {
            Pacing::Redraw
        } else {
            Pacing::Wait((self.frame_nanos() - elapsed) as u128)
        }
    }

    /// Decides between a redraw and a wait, `elapsed` nanoseconds after the
    /// last frame. A limit of no frames at all has no frame time.
    pub fn pace(&self, elapsed: u128) -> (pacing: Pacing)
        requires
            *self != FramerateLimit::Limited(0),
        ensures
            pacing == self.due(elapsed),
    {
        match self {
            FramerateLimit::Unlimited => Pacing::Redraw,
            FramerateLimit::Limited(fps) => {
                let target: u128 = NANOS_PER_SECOND / (*fps as u128);
                if elapsed >= target {
                    Pacing::Redraw
                } else {
                    Pacing::Wait(target - elapsed)
                }
            },
        }
    }
}

/// A wait never lasts longer than the frame time, and the redraw is due when
/// it is over.
pub proof fn lemma_wait_ends_in_redraw(limit: FramerateLimit, elapsed: u128)
    requires
        limit != FramerateLimit::Limited(0),
    ensures
        limit.due(elapsed) matches Pacing::Wait(rest) ==> {
            &&& 0 < rest <= limit.frame_nanos()
            &&& elapsed + rest == limit.frame_nanos()
            &&& limit.due((elapsed + rest) as u128) == Pacing::Redraw
        },
        limit == FramerateLimit::Unlimited ==> limit.due(elapsed) == Pacing::Redraw,
{
    match limit {
        FramerateLimit::Unlimited => {},
        FramerateLimit::Limited(fps) => {
            assert(NANOS_PER_SECOND as int / fps as int <= NANOS_PER_SECOND) by (nonlinear_arith)
                requires
                    fps > 0,
            ;
        },
    }
}

/// The width and the height of a surface after a resize: no less than one
/// texel each.
pub open spec fn clamped(width: u32, height: u32) -> (u32, u32) {
    (if width == 0 { 1u32 } else { width }, if height == 0 { 1u32 } else { height })
}

impl SurfaceConfiguration {
    /// Takes the new size of the window, each dimension raised to one texel
    /// where it is none. The format stays.
    pub fn resize(&mut self, width: u32, height: u32)
        ensures
            final(self).format == old(self).format,
            (final(self).width, final(self).height) == clamped(width, height),
            final(self).width >= 1 && final(self).height >= 1,
    {
        self.width = if width == 0 { 1 } else { width };
        self.height = if height == 0 { 1 } else { height };
    }
}

/// The position of the first sRGB format among `formats` from `from` on, or
/// their number if there is none.
pub open spec fn first_srgb(formats: Seq<TextureFormat>, from: int) -> int
    decreases formats.len() - from,
{
    if from >= formats.len() {
        formats.len() as int
    } else if formats[from].spec_is_srgb() {
        from
    } else {
        first_srgb(formats, from + 1)
    }
}

/// The format that a surface is configured with: the first sRGB format it
/// supports, or the first format of all if it supports none.
pub open spec fn preferred_format(formats: Seq<TextureFormat>) -> TextureFormat {
    if first_srgb(formats, 0) < formats.len() {
        formats[first_srgb(formats, 0)]
    } else {
        formats[0]
    }
}

/// Picks the format to configure a surface with from those it supports.
pub fn choose_surface_format(formats: &[TextureFormat]) -> (format: TextureFormat)
    requires
        formats@.len() > 0,
    ensures
        format == preferred_format(formats@),
{
    let mut i: usize = 0;
    while i < formats.len()
        invariant
            i <= formats@.len(),
            first_srgb(formats@, 0) == first_srgb(formats@, i as int),
        decreases formats@.len() - i,
    {
        if formats[i].is_srgb() {
            return formats[i];
        }
        i += 1;
    }
    formats[0]
}

/// The preferred format is one of those supported; it is an sRGB format
/// whenever one is supported, and then no sRGB format comes before it.
pub proof fn lemma_preferred_format(formats: Seq<TextureFormat>)
    requires
        formats.len() > 0,
    ensures
        formats.contains(preferred_format(formats)),
        (exists|i: int| 0 <= i < formats.len() && formats[i].spec_is_srgb())
            ==> preferred_format(formats).spec_is_srgb(),
        forall|i: int| 0 <= i < first_srgb(formats, 0) && i < formats.len() ==> !formats[i].spec_is_srgb(),
{
    lemma_first_srgb(formats, 0);
    if first_srgb(formats, 0) < formats.len() {
        assert(formats[first_srgb(formats, 0)] == preferred_format(formats));
    } else {
        assert(formats[0] == preferred_format(formats));
    }
}

/// `first_srgb` finds an sRGB format if there is one from `from` on, and
/// passes over none.
proof fn lemma_first_srgb(formats: Seq<TextureFormat>, from: int)
    requires
        0 <= from <= formats.len(),
    ensures
        from <= first_srgb(formats, from) <= formats.len(),
        first_srgb(formats, from) < formats.len() ==> formats[first_srgb(
            formats,
            from,
        )].spec_is_srgb(),
        forall|i: int| from <= i < first_srgb(formats, from) ==> !formats[i].spec_is_srgb(),
    decreases formats.len() - from,
{
    if from < formats.len() && !formats[from].spec_is_srgb() {
        lemma_first_srgb(formats, from + 1);
    }
}

/// Where a frame stands.
#[derive(Clone, Copy, Debug, PartialEq, Eq, Structural)]
pub enum FrameState {
    /// No frame is under way.
    Idle,
    /// The surface image has been asked for.
    Acquiring,
    /// The surface has been configured anew and the image asked for again.
    Reacquiring,
    /// The render callback is recording into the pass.
    Recording,
    /// The recorded commands are being submitted.
    Submitting,
    /// The image is being presented.
    Presenting,
    /// The image could not be had, even at the second attempt.
    Failed,
}

/// What the loop reports to the driver.
#[derive(Clone, Copy, Debug, PartialEq, Eq, Structural)]
pub enum FrameEvent {
    /// A redraw was requested.
    RedrawRequested,
    /// The surface image was acquired.
    Acquired,
    /// The surface image could not be acquired.
    AcquireFailed,
    /// The pass has ended.
    Recorded,
    /// The commands were submitted.
    Submitted,
    /// The image was presented.
    Presented,
}

/// What the driver has the loop do next.
#[derive(Clone, Copy, Debug, PartialEq, Eq, Structural)]
pub enum FrameAction {
    /// Ask for the next surface image.
    Acquire,
    /// Configure the surface anew, then ask for the image once more.
    ReconfigureAndAcquire,
    /// Create the encoder, begin the pass, call the render callback, end the pass.
    Record,
    /// Submit the recorded commands.
    Submit,
    /// Present the image.
    Present,
    /// Move the time source's reference point to now.
    AdvanceTime,
    /// Give up: the surface image cannot be had.
    Abort,
    /// Nothing: the event does not belong here.
    Nothing,
}

/// The state that follows `state` on `event`, and what is to be done. An
/// event that does not belong to the state changes nothing.
pub open spec fn frame_step(state: FrameState, event: FrameEvent) -> (FrameState, FrameAction) {
    match (state, event) {
        (FrameState::Idle, FrameEvent::RedrawRequested) => (
            FrameState::Acquiring,
            FrameAction::Acquire,
        ),
        (FrameState::Acquiring, FrameEvent::Acquired) => (
            FrameState::Recording,
            FrameAction::Record,
        ),
        (FrameState::Acquiring, FrameEvent::AcquireFailed) => (
            FrameState::Reacquiring,
            FrameAction::ReconfigureAndAcquire,
        ),
        (FrameState::Reacquiring, FrameEvent::Acquired) => (
            FrameState::Recording,
            FrameAction::Record,
        ),
        (FrameState::Reacquiring, FrameEvent::AcquireFailed) => (
            FrameState::Failed,
            FrameAction::Abort,
        ),
        (FrameState::Recording, FrameEvent::Recorded) => (
            FrameState::Submitting,
            FrameAction::Submit,
        ),
        (FrameState::Submitting, FrameEvent::Submitted) => (
            FrameState::Presenting,
            FrameAction::Present,
        ),
        (FrameState::Presenting, FrameEvent::Presented) => (
            FrameState::Idle,
            FrameAction::AdvanceTime,
        ),
        _ => (state, FrameAction::Nothing),
    }
}

/// Takes a frame through its steps, strictly in order.
#[derive(Clone, Copy, Debug, PartialEq, Eq, Structural)]
pub struct FrameDriver {
    pub state: FrameState,
}

impl FrameDriver {
    /// A driver with no frame under way.
    pub fn new() -> (driver: FrameDriver)
        ensures
            driver.state == FrameState::Idle,
    {
        FrameDriver { state: FrameState::Idle }
    }

    /// Takes note of `event` and says what is to be done next.
    pub fn step(&mut self, event: FrameEvent) -> (action: FrameAction)
        ensures
            (final(self).state, action) == frame_step(old(self).state, event),
    {
        let (state, action) = match (self.state, event) {
            (FrameState::Idle, FrameEvent::RedrawRequested) => (
                FrameState::Acquiring,
                FrameAction::Acquire,
            ),
            (FrameState::Acquiring, FrameEvent::Acquired) => (
                FrameState::Recording,
                FrameAction::Record,
            ),
            (FrameState::Acquiring, FrameEvent::AcquireFailed) => (
                FrameState::Reacquiring,
                FrameAction::ReconfigureAndAcquire,
            ),
            (FrameState::Reacquiring, FrameEvent::Acquired) => (
                FrameState::Recording,
                FrameAction::Record,
            ),
            (FrameState::Reacquiring, FrameEvent::AcquireFailed) => (
                FrameState::Failed,
                FrameAction::Abort,
            ),
            (FrameState::Recording, FrameEvent::Recorded) => (
                FrameState::Submitting,
                FrameAction::Submit,
            ),
            (FrameState::Submitting, FrameEvent::Submitted) => (
                FrameState::Presenting,
                FrameAction::Present,
            ),
            (FrameState::Presenting, FrameEvent::Presented) => (
                FrameState::Idle,
                FrameAction::AdvanceTime,
            ),
            _ => (self.state, FrameAction::Nothing),
        };
        self.state = state;
        action
    }
}

/// The actions of a frame on which nothing fails, in order.
pub open spec fn frame_actions() -> Seq<FrameAction> {
    seq![
        FrameAction::Acquire,
        FrameAction::Record,
        FrameAction::Submit,
        FrameAction::Present,
        FrameAction::AdvanceTime,
    ]
}

/// The states and actions of a run: from `state`, the events one after
/// another.
pub open spec fn run(state: FrameState, events: Seq<FrameEvent>) -> (FrameState, Seq<FrameAction>)
    decreases events.len(),
{
    if events.len() == 0 {
        (state, Seq::empty())
    } else {
        let (next, action) = frame_step(state, events[0]);
        let (last, actions) = run(next, events.drop_first());
        (last, seq![action] + actions)
    }
}

/// A frame goes through its steps in order. Where the image is acquired at
/// once, the actions are those of `frame_actions`. Where the first attempt
/// fails, the surface is configured anew once, and the frame goes on as
/// before if the second attempt succeeds; if that fails too, the frame is
/// given up, and no further event moves the driver.
pub proof fn lemma_frame_runs()
    ensures
        run(
            FrameState::Idle,
            seq![
                FrameEvent::RedrawRequested,
                FrameEvent::Acquired,
                FrameEvent::Recorded,
                FrameEvent::Submitted,
                FrameEvent::Presented,
            ],
        ) == (FrameState::Idle, frame_actions()),
        run(
            FrameState::Idle,
            seq![
                FrameEvent::RedrawRequested,
                FrameEvent::AcquireFailed,
                FrameEvent::Acquired,
                FrameEvent::Recorded,
                FrameEvent::Submitted,
                FrameEvent::Presented,
            ],
        ) == (FrameState::Idle, frame_actions().insert(1, FrameAction::ReconfigureAndAcquire)),
        run(
            FrameState::Idle,
            seq![FrameEvent::RedrawRequested, FrameEvent::AcquireFailed, FrameEvent::AcquireFailed],
        ) == (
            FrameState::Failed,
            seq![FrameAction::Acquire, FrameAction::ReconfigureAndAcquire, FrameAction::Abort],
        ),
        forall|event: FrameEvent| #[trigger]
            frame_step(FrameState::Failed, event) == (FrameState::Failed, FrameAction::Nothing),
{
    reveal_with_fuel(run, 7);
    let a = seq![
        FrameEvent::RedrawRequested,
        FrameEvent::Acquired,
        FrameEvent::Recorded,
        FrameEvent::Submitted,
        FrameEvent::Presented,
    ];
    lemma_run_unfolds(FrameState::Idle, a);
    lemma_run_unfolds(FrameState::Acquiring, a.drop_first());
    lemma_run_unfolds(FrameState::Recording, a.drop_first().drop_first());
    lemma_run_unfolds(FrameState::Submitting, a.drop_first().drop_first().drop_first());
    lemma_run_unfolds(
        FrameState::Presenting,
        a.drop_first().drop_first().drop_first().drop_first(),
    );
    assert(run(FrameState::Idle, a).1 =~= frame_actions());

    let b = seq![
        FrameEvent::RedrawRequested,
        FrameEvent::AcquireFailed,
        FrameEvent::Acquired,
        FrameEvent::Recorded,
        FrameEvent::Submitted,
        FrameEvent::Presented,
    ];
    assert(b.drop_first().drop_first() =~= a.drop_first());
    lemma_run_unfolds(FrameState::Idle, b);
    lemma_run_unfolds(FrameState::Acquiring, b.drop_first());
    lemma_run_unfolds(FrameState::Reacquiring, b.drop_first().drop_first());
    assert(run(FrameState::Idle, b).1 =~= frame_actions().insert(
        1,
        FrameAction::ReconfigureAndAcquire,
    ));

    let c = seq![FrameEvent::RedrawRequested, FrameEvent::AcquireFailed, FrameEvent::AcquireFailed];
    lemma_run_unfolds(FrameState::Idle, c);
    lemma_run_unfolds(FrameState::Acquiring, c.drop_first());
    lemma_run_unfolds(FrameState::Reacquiring, c.drop_first().drop_first());
    assert(run(FrameState::Idle, c).1 =~= seq![
        FrameAction::Acquire,
        FrameAction::ReconfigureAndAcquire,
        FrameAction::Abort,
    ]);
}

/// A run of at least one event is its first step and the run of the rest.
proof fn lemma_run_unfolds(state: FrameState, events: Seq<FrameEvent>)
    requires
        events.len() > 0,
    ensures
        run(state, events) == (
            run(frame_step(state, events[0]).0, events.drop_first()).0,
            seq![frame_step(state, events[0]).1] + run(
                frame_step(state, events[0]).0,
                events.drop_first(),
            ).1,
        ),
{
}

/// Whatever happens, the surface is configured anew at most once in a frame:
/// between two such actions the driver has been idle.
pub proof fn lemma_single_retry(state: FrameState, event: FrameEvent)
    ensures
        frame_step(state, event).1 == FrameAction::ReconfigureAndAcquire ==> state
            == FrameState::Acquiring && frame_step(state, event).0 == FrameState::Reacquiring,
        state == FrameState::Reacquiring ==> frame_step(state, event).1
            != FrameAction::ReconfigureAndAcquire && frame_step(state, event).1
            != FrameAction::Acquire,
        frame_step(state, event).0 == FrameState::Acquiring ==> state == FrameState::Idle || state
            == FrameState::Acquiring,
{
}

} // verus!
