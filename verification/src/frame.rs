//! The per-frame synchronization protocol: the acquire → submit → present
//! cycle, the two GPU-side signal primitives that order it, and the plans
//! the unverified shell executes for each step.
//!
//! The cycle is pure control flow across one frame: `Idle` →
//! `ImageAcquired` → `Submitted` → `Presented`, looping back to `Idle`.
//! Any failure reported by the shell is fatal for this core; the state
//! machine itself rejects events that do not fit the current state and
//! image indices that address no swapchain image.

use vstd::prelude::*;
use crate::error::FrameError;

verus! {

/// Pipeline stage bitmask code for color-attachment output: the submission
/// waits for the acquired image only at this stage, so earlier stages may
/// run before the image is actually available.
pub const STAGE_COLOR_ATTACHMENT_OUTPUT: u32 = 0x400;

/// The timeout handed to the acquire call: wait indefinitely.
pub const ACQUIRE_TIMEOUT_INDEFINITE: u64 = 0xffff_ffff_ffff_ffff;

/// The two GPU-side signal primitives of one frame cycle.
#[derive(Clone, Copy, Debug, PartialEq, Eq, Structural)]
pub enum SyncPrimitive {
    /// Signalled when the display engine has handed over the acquired image.
    ImageAvailable,
    /// Signalled when the submitted rendering work has completed.
    RenderFinished,
}

/// Where the frame cycle stands within one iteration.
#[derive(Clone, Copy, Debug, PartialEq, Eq, Structural)]
pub enum FrameState {
    /// No work in flight; the next step is to acquire an image.
    Idle,
    /// The display engine yielded this image index; the next step is to
    /// submit the matching pre-recorded command buffer.
    ImageAcquired { image_index: u32 },
    /// Rendering work for this image is on the graphics queue; the next
    /// step is to present it.
    Submitted { image_index: u32 },
    /// The present request has been queued; the cycle loops back to idle.
    Presented,
}

/// A completion the unverified shell reports back into the cycle.
#[derive(Clone, Copy, Debug, PartialEq, Eq, Structural)]
pub enum FrameEvent {
    /// The acquire call returned this image index.
    AcquireDone { image_index: u32 },
    /// The submission call succeeded.
    SubmitDone,
    /// The present request was queued.
    PresentDone,
}

/// What the acquire step must do: block up to the given timeout and signal
/// the given primitive when the image is handed over.
#[derive(Clone, Copy, Debug, PartialEq, Eq, Structural)]
pub struct AcquirePlan {
    pub timeout: u64,
    pub signal: SyncPrimitive,
}

/// What the submit step must do: submit the command buffer at
/// `command_buffer_index` to the graphics queue, waiting on `wait` at the
/// `wait_stage` pipeline stage and signalling `signal` on completion.
#[derive(Clone, Copy, Debug, PartialEq, Eq, Structural)]
pub struct SubmitPlan {
    pub command_buffer_index: usize,
    pub wait: SyncPrimitive,
    pub wait_stage: u32,
    pub signal: SyncPrimitive,
}

/// What the present step must do: queue a present request for
/// `image_index` on the present queue, waiting on `wait` before the
/// display engine may read the image.
#[derive(Clone, Copy, Debug, PartialEq, Eq, Structural)]
pub struct PresentPlan {
    pub image_index: u32,
    pub wait: SyncPrimitive,
}

/// The acquire step: wait indefinitely, signal image-available.
pub open spec fn spec_acquire_plan() -> AcquirePlan {
    AcquirePlan { timeout: ACQUIRE_TIMEOUT_INDEFINITE, signal: SyncPrimitive::ImageAvailable }
}

/// The submit step for an acquired image: the command buffer bound to that
/// image, waiting on image-available at color-attachment output,
/// signalling render-finished.
pub open spec fn spec_submit_plan(image_index: u32) -> SubmitPlan {
    SubmitPlan {
        command_buffer_index: image_index as usize,
        wait: SyncPrimitive::ImageAvailable,
        wait_stage: STAGE_COLOR_ATTACHMENT_OUTPUT,
        signal: SyncPrimitive::RenderFinished,
    }
}

/// The present step for a submitted image: the same image index, waiting
/// on render-finished.
pub open spec fn spec_present_plan(image_index: u32) -> PresentPlan {
    PresentPlan { image_index, wait: SyncPrimitive::RenderFinished }
}

/// How the cycle advances on an event: acquire completions are accepted
/// only when idle and only with an index that addresses a swapchain image,
/// submit completions only in the acquired state, present completions only
/// in the submitted state. Everything else is a protocol violation, and
/// every failure is fatal for this core.
pub open spec fn spec_advance(s: FrameState, e: FrameEvent, image_count: int) -> Result<
    FrameState,
    FrameError,
> {
    match (s, e) {
        (FrameState::Idle, FrameEvent::AcquireDone { image_index }) => {
            if image_index < image_count {
                Ok(FrameState::ImageAcquired { image_index })
            } else {
                Err(FrameError::ImageIndexOutOfRange)
            }
        },
        (FrameState::ImageAcquired { image_index }, FrameEvent::SubmitDone) => {
            Ok(FrameState::Submitted { image_index })
        },
        (FrameState::Submitted { image_index: _ }, FrameEvent::PresentDone) => {
            Ok(FrameState::Presented)
        },
        _ => Err(FrameError::ProtocolViolation),
    }
}

/// Advances the frame cycle by one completed step.
pub fn advance(s: &FrameState, e: &FrameEvent, image_count: usize) -> (r: Result<
    FrameState,
    FrameError,
>)
    ensures
        r == spec_advance(*s, *e, image_count as int),
{
    match (s, e) {
        (FrameState::Idle, FrameEvent::AcquireDone { image_index }) => {
            if (*image_index as usize) < image_count {
                Ok(FrameState::ImageAcquired { image_index: *image_index })
            } else {
                Err(FrameError::ImageIndexOutOfRange)
            }
        },
        (FrameState::ImageAcquired { image_index }, FrameEvent::SubmitDone) => {
            Ok(FrameState::Submitted { image_index: *image_index })
        },
        (FrameState::Submitted { image_index: _ }, FrameEvent::PresentDone) => {
            Ok(FrameState::Presented)
        },
        _ => Err(FrameError::ProtocolViolation),
    }
}

/// Plans the acquire step. Meaningful only when the cycle is idle.
pub fn acquire_plan(s: &FrameState) -> (r: AcquirePlan)
    requires
        *s is Idle,
    ensures
        r == spec_acquire_plan(),
{
    AcquirePlan { timeout: ACQUIRE_TIMEOUT_INDEFINITE, signal: SyncPrimitive::ImageAvailable }
}

/// Plans the submit step for the acquired image.
pub fn submit_plan(s: &FrameState) -> (r: SubmitPlan)
    requires
        *s is ImageAcquired,
    ensures
        r == spec_submit_plan(s->ImageAcquired_image_index),
{
    match s {
        FrameState::ImageAcquired { image_index } => SubmitPlan {
            command_buffer_index: *image_index as usize,
            wait: SyncPrimitive::ImageAvailable,
            wait_stage: STAGE_COLOR_ATTACHMENT_OUTPUT,
            signal: SyncPrimitive::RenderFinished,
        },
        _ => unreached(),
    }
}

/// Plans the present step for the submitted image.
pub fn present_plan(s: &FrameState) -> (r: PresentPlan)
    requires
        *s is Submitted,
    ensures
        r == spec_present_plan(s->Submitted_image_index),
{
    match s {
        FrameState::Submitted { image_index } => PresentPlan {
            image_index: *image_index,
            wait: SyncPrimitive::RenderFinished,
        },
        _ => unreached(),
    }
}

/// Closes one cycle: a presented frame returns the machine to idle for the
/// next iteration.
pub fn complete_frame(s: &FrameState) -> (r: FrameState)
    requires
        *s is Presented,
    ensures
        r == FrameState::Idle,
{
    FrameState::Idle
}

/// A well-formed frame cycle always runs to completion: from idle, an
/// acquire completion whose index addresses a swapchain image, followed by
/// a submit completion and a present completion, is accepted step by step,
/// carries the acquired index through submission, and ends with the frame
/// presented.
pub proof fn lemma_cycle_runs_to_completion(image_index: u32, image_count: int)
    requires
        image_index < image_count,
    ensures
        ({
            let acquired = spec_advance(
                FrameState::Idle,
                FrameEvent::AcquireDone { image_index },
                image_count,
            );
            &&& acquired == Result::<FrameState, FrameError>::Ok(
                FrameState::ImageAcquired { image_index },
            )
            &&& spec_advance(acquired.unwrap(), FrameEvent::SubmitDone, image_count)
                == Result::<FrameState, FrameError>::Ok(FrameState::Submitted { image_index })
            &&& spec_advance(
                FrameState::Submitted { image_index },
                FrameEvent::PresentDone,
                image_count,
            ) == Result::<FrameState, FrameError>::Ok(FrameState::Presented)
        }),
{
}

/// The synchronization chain of one frame cycle: the submission waits on
/// exactly the primitive the acquire step signals, the present request
/// waits on exactly the primitive the submission signals, and the command
/// buffer submitted is the one bound to the acquired image, which is also
/// the image presented. Together these wire up the happens-before order
/// acquire-complete → color output → present-read for that image.
pub proof fn lemma_frame_sync_chain(image_index: u32)
    ensures
        spec_submit_plan(image_index).wait == spec_acquire_plan().signal,
        spec_present_plan(image_index).wait == spec_submit_plan(image_index).signal,
        spec_submit_plan(image_index).command_buffer_index == image_index as usize,
        spec_present_plan(image_index).image_index == image_index,
        spec_submit_plan(image_index).wait_stage == STAGE_COLOR_ATTACHMENT_OUTPUT,
{
}

} // verus!
