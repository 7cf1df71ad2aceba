//! The order of one frame: acquire, encode, submit, present.
//!
//! The driver decides; the caller does the work on the device and reports
//! back what happened.

use vstd::prelude::*;
use crate::command::{ClearColor, Command};
use crate::error::GpuError;
use crate::surface::SurfaceConfig;

verus! {

/// Where a frame stands.
#[derive(Clone, Copy, Debug, PartialEq, Eq, Structural)]
pub enum FrameState {
    /// No frame is in progress.
    Idle,
    /// The surface has handed out a texture.
    Acquired,
    /// The render pass has been recorded.
    Encoding,
    /// The commands have been submitted to the queue.
    Submitted,
    /// The texture has been handed to the compositor.
    Presented,
    /// The frame was abandoned.
    Failed,
}

/// Why the surface handed out no texture.
#[derive(Clone, Copy, Debug, PartialEq, Eq, Structural)]
pub enum SurfaceFailure {
    Lost,
    Outdated,
}

/// What the caller reports.
#[derive(Clone, Copy, Debug, PartialEq, Eq, Structural)]
pub enum FrameEvent {
    /// The window asks for a frame.
    Redraw,
    /// The surface handed out a texture.
    TextureAcquired,
    /// The surface has to be configured again before it hands out a texture.
    AcquireFailed(SurfaceFailure),
    /// The render pass has been recorded and ended.
    PassEncoded,
    /// The encoder has been finished and its commands submitted.
    CommandsSubmitted,
    /// The texture has been presented.
    FramePresented,
}

/// What the caller does next.
#[derive(Clone, Copy, Debug, PartialEq, Eq, Structural)]
pub enum FrameAction {
    /// Ask the surface for the next texture.
    AcquireFrame,
    /// Apply the configuration to the surface again, then ask once more.
    Reconfigure(SurfaceConfig),
    /// Create a view and an encoder and record this render pass with the
    /// render pipeline.
    Encode(Command),
    /// Finish the encoder and submit its commands to the queue.
    Submit,
    /// Hand the texture to the compositor.
    Present,
    /// The frame is done; release what belongs to it.
    Complete,
    /// The frame is abandoned with this error; release what belongs to it.
    Abandon(GpuError),
    /// The report does not belong here; nothing changes.
    Ignore,
}

/// The background that every frame is cleared to: opaque black.
pub open spec fn background() -> ClearColor {
    ClearColor { red: 0, green: 0, blue: 0, alpha: 255 }
}

/// The render pass of every frame: clear to the background, then draw the
/// vertices 0, 1 and 2 of instance 0.
pub open spec fn triangle_pass() -> Command {
    Command::RenderPass {
        clear: background(),
        first_vertex: 0,
        vertex_count: 3,
        first_instance: 0,
        instance_count: 1,
    }
}

impl SurfaceFailure {
    /// The error that is reported for the failure.
    pub open spec fn error_spec(self) -> GpuError {
        match self {
            SurfaceFailure::Lost => GpuError::SurfaceLost,
            SurfaceFailure::Outdated => GpuError::SurfaceOutdated,
        }
    }

    /// The error that is reported for the failure.
    pub fn error(self) -> (error: GpuError)
        ensures
            error == self.error_spec(),
            error.is_surface_failure(),
    {
        match self {
            SurfaceFailure::Lost => GpuError::SurfaceLost,
            SurfaceFailure::Outdated => GpuError::SurfaceOutdated,
        }
    }
}

impl FrameState {
    /// Whether a new frame may begin: none is in progress.
    pub open spec fn at_rest(self) -> bool {
        self is Idle || self is Presented || self is Failed
    }
}

/// The driver of the frame loop: the state of the frame and whether the
/// surface has already been configured again for it.
#[derive(Clone, Copy, Debug, PartialEq, Eq, Structural)]
pub struct FrameDriver {
    pub state: FrameState,
    pub retried: bool,
}

/// The driver before the first frame.
pub open spec fn frame_start() -> FrameDriver {
    FrameDriver { state: FrameState::Idle, retried: false }
}

/// The driver after a report, and what the caller does next.
///
/// A redraw begins a frame where none is in progress. A surface that is
/// lost or outdated is configured again and asked once more; if that fails
/// too, the frame is abandoned, and the next redraw begins afresh. A report
/// out of turn changes nothing.
pub open spec fn frame_step(driver: FrameDriver, config: SurfaceConfig, event: FrameEvent) -> (
    FrameDriver,
    FrameAction,
) {
    match (driver.state, event) {
        (FrameState::Idle, FrameEvent::Redraw)
        | (FrameState::Presented, FrameEvent::Redraw)
        | (FrameState::Failed, FrameEvent::Redraw) => (
            FrameDriver { state: FrameState::Idle, retried: false },
            FrameAction::AcquireFrame,
        ),
        (FrameState::Idle, FrameEvent::TextureAcquired) => (
            FrameDriver { state: FrameState::Acquired, retried: false },
            FrameAction::Encode(triangle_pass()),
        ),
        (FrameState::Idle, FrameEvent::AcquireFailed(failure)) => if driver.retried {
            (
                FrameDriver { state: FrameState::Failed, retried: false },
                FrameAction::Abandon(failure.error_spec()),
            )
        } else {
            (FrameDriver { state: FrameState::Idle, retried: true }, FrameAction::Reconfigure(config))
        },
        (FrameState::Acquired, FrameEvent::PassEncoded) => (
            FrameDriver { state: FrameState::Encoding, retried: false },
            FrameAction::Submit,
        ),
        (FrameState::Encoding, FrameEvent::CommandsSubmitted) => (
            FrameDriver { state: FrameState::Submitted, retried: false },
            FrameAction::Present,
        ),
        (FrameState::Submitted, FrameEvent::FramePresented) => (
            FrameDriver { state: FrameState::Presented, retried: false },
            FrameAction::Complete,
        ),
        _ => (driver, FrameAction::Ignore),
    }
}

/// How often the current frame has been submitted and presented.
pub struct FrameCounts {
    pub submissions: nat,
    pub presentations: nat,
}

/// The counts after an action: a new frame starts at zero.
pub open spec fn count_action(counts: FrameCounts, action: FrameAction) -> FrameCounts {
    match action {
        FrameAction::AcquireFrame => FrameCounts { submissions: 0, presentations: 0 },
        FrameAction::Submit => FrameCounts {
            submissions: counts.submissions + 1,
            presentations: counts.presentations,
        },
        FrameAction::Present => FrameCounts {
            submissions: counts.submissions,
            presentations: counts.presentations + 1,
        },
        _ => counts,
    }
}

/// The driver after a run of reports, with the submissions and
/// presentations that the caller was asked for in the current frame.
pub open spec fn frame_run(
    driver: FrameDriver,
    counts: FrameCounts,
    config: SurfaceConfig,
    events: Seq<FrameEvent>,
) -> (FrameDriver, FrameCounts)
    decreases events.len(),
{
    if events.len() == 0 {
        (driver, counts)
    } else {
        let (next, action) = frame_step(driver, config, events[0]);
        frame_run(next, count_action(counts, action), config, events.drop_first())
    }
}

/// What holds of the counts in each state of a frame.
pub open spec fn counts_match(driver: FrameDriver, counts: FrameCounts) -> bool {
    match driver.state {
        FrameState::Idle | FrameState::Acquired | FrameState::Failed => counts.submissions == 0
            && counts.presentations == 0,
        FrameState::Encoding => counts.submissions == 1 && counts.presentations == 0,
        FrameState::Submitted | FrameState::Presented => counts.submissions == 1
            && counts.presentations == 1,
    }
}

impl FrameDriver {
    /// The driver before the first frame.
    pub fn new() -> (driver: FrameDriver)
        ensures
            driver == frame_start(),
    {
        FrameDriver { state: FrameState::Idle, retried: false }
    }

    /// Takes a report and says what to do next; see [`frame_step`].
    pub fn advance(&mut self, config: SurfaceConfig, event: FrameEvent) -> (action: FrameAction)
        ensures
            (*final(self), action) == frame_step(*old(self), config, event),
    {
        let (next, action) = match (self.state, event) {
            (FrameState::Idle, FrameEvent::Redraw)
            | (FrameState::Presented, FrameEvent::Redraw)
            | (FrameState::Failed, FrameEvent::Redraw) => (
                FrameDriver { state: FrameState::Idle, retried: false },
                FrameAction::AcquireFrame,
            ),
            (FrameState::Idle, FrameEvent::TextureAcquired) => (
                FrameDriver { state: FrameState::Acquired, retried: false },
                FrameAction::Encode(
                    Command::RenderPass {
                        clear: ClearColor { red: 0, green: 0, blue: 0, alpha: 255 },
                        first_vertex: 0,
                        vertex_count: 3,
                        first_instance: 0,
                        instance_count: 1,
                    },
                ),
            ),
            (FrameState::Idle, FrameEvent::AcquireFailed(failure)) => if self.retried {
                (
                    FrameDriver { state: FrameState::Failed, retried: false },
                    FrameAction::Abandon(failure.error()),
                )
            } else {
                (
                    FrameDriver { state: FrameState::Idle, retried: true },
                    FrameAction::Reconfigure(config),
                )
            },
            (FrameState::Acquired, FrameEvent::PassEncoded) => (
                FrameDriver { state: FrameState::Encoding, retried: false },
                FrameAction::Submit,
            ),
            (FrameState::Encoding, FrameEvent::CommandsSubmitted) => (
                FrameDriver { state: FrameState::Submitted, retried: false },
                FrameAction::Present,
            ),
            (FrameState::Submitted, FrameEvent::FramePresented) => (
                FrameDriver { state: FrameState::Presented, retried: false },
                FrameAction::Complete,
            ),
            (_, _) => (*self, FrameAction::Ignore),
        };
        *self = next;
        action
    }
}

/// The caller is asked to present only in answer to the report that the
/// commands of the frame were submitted; a frame becomes presented only
/// from the submitted state, and submitted only after its pass was
/// recorded.
pub proof fn present_follows_submit(driver: FrameDriver, config: SurfaceConfig, event: FrameEvent)
    ensures
        frame_step(driver, config, event).1 is Present <==> driver.state is Encoding
            && event is CommandsSubmitted,
        frame_step(driver, config, event).1 is Submit <==> driver.state is Acquired
            && event is PassEncoded,
        frame_step(driver, config, event).0.state is Presented && !(driver.state is Presented)
            ==> driver.state is Submitted && event is FramePresented,
        frame_step(driver, config, event).0.state is Submitted && !(driver.state is Submitted)
            ==> driver.state is Encoding && event is CommandsSubmitted,
{
}

/// A step keeps the counts in line with the state.
pub proof fn step_keeps_counts(
    driver: FrameDriver,
    counts: FrameCounts,
    config: SurfaceConfig,
    event: FrameEvent,
)
    requires
        counts_match(driver, counts),
    ensures
        counts_match(
            frame_step(driver, config, event).0,
            count_action(counts, frame_step(driver, config, event).1),
        ),
{
}

/// Whatever is reported, in whatever order: a frame that is presented was
/// submitted exactly once and presented exactly once, and no frame is
/// presented that was not submitted.
pub proof fn presented_frame_was_submitted_once(
    driver: FrameDriver,
    counts: FrameCounts,
    config: SurfaceConfig,
    events: Seq<FrameEvent>,
)
    requires
        counts_match(driver, counts),
    ensures
        counts_match(
            frame_run(driver, counts, config, events).0,
            frame_run(driver, counts, config, events).1,
        ),
        frame_run(driver, counts, config, events).1.presentations <= frame_run(
            driver,
            counts,
            config,
            events,
        ).1.submissions,
        frame_run(driver, counts, config, events).0.state is Presented ==> frame_run(
            driver,
            counts,
            config,
            events,
        ).1.submissions == 1 && frame_run(driver, counts, config, events).1.presentations == 1,
    decreases events.len(),
{
    if events.len() > 0 {
        let (next, action) = frame_step(driver, config, events[0]);
        step_keeps_counts(driver, counts, config, events[0]);
        presented_frame_was_submitted_once(
            next,
            count_action(counts, action),
            config,
            events.drop_first(),
        );
    }
}

/// A frame that meets no failure runs from idle to presented in four
/// reports after the redraw, and asks for one render pass, one submission
/// and one presentation, in that order.
pub proof fn undisturbed_frame_is_presented(config: SurfaceConfig)
    ensures
        ({
            let s0 = frame_step(frame_start(), config, FrameEvent::Redraw);
            let s1 = frame_step(s0.0, config, FrameEvent::TextureAcquired);
            let s2 = frame_step(s1.0, config, FrameEvent::PassEncoded);
            let s3 = frame_step(s2.0, config, FrameEvent::CommandsSubmitted);
            let s4 = frame_step(s3.0, config, FrameEvent::FramePresented);
            &&& s0.1 == FrameAction::AcquireFrame
            &&& s1.1 == FrameAction::Encode(triangle_pass())
            &&& s2.1 == FrameAction::Submit
            &&& s3.1 == FrameAction::Present
            &&& s4.1 == FrameAction::Complete
            &&& s4.0.state == FrameState::Presented
        }),
{
}

} // verus!
