//! The frame orchestrator: the per-frame control loop as a verified state
//! machine.
//!
//! The shell owns the driver handles and performs the blocking calls — fence
//! waits, image acquisition, queue submission, presentation, the device-idle
//! wait — and reports each call's outcome back here. Every decision (which
//! slot to use, which fences to wait, when to recreate the swap chain, when
//! a condition is fatal, when a zero-area window must park the loop) is made
//! in this module, with a contract that pins the next state and the
//! requested action for every outcome.

use crate::error::{NeedleErr, NeedleError};
use crate::surface::Extent2D;
use crate::swapchain::{Swapchain, FRAMES_IN_FLIGHT};
use vstd::prelude::*;

verus! {

/// Where the orchestrator stands in the per-frame cycle.
#[derive(Debug, Clone, Copy, PartialEq, Eq, Structural)]
pub enum FramePhase {
    /// Between frames; `begin_frame` may start the next one.
    Idle,
    /// The slot's fence has been waited on; an acquisition request is
    /// outstanding.
    AwaitingAcquire,
    /// An image is acquired; the caller records its commands.
    Recording,
    /// Commands are submitted; a present request is outstanding.
    Submitted,
    /// The swap chain no longer matches the surface; it must be rebuilt
    /// before the next frame.
    NeedsRecreate,
    /// The window has zero area; recreation is parked until the host event
    /// loop reports a non-zero extent.
    WaitingForResize,
    /// The window extent is known non-zero; the shell may wait for the
    /// device to go idle, rebuild the swap chain, and report it back.
    RecreateReady,
    /// A fatal condition was reported; no further frames may run.
    Failed,
    /// `shutdown` was called; nothing may follow it.
    Terminated,
}

/// What `begin_frame` asks the shell to do: wait on the given slot's fence,
/// then request the next image, signaling that slot's image-acquired
/// semaphore.
#[derive(Debug, Clone, Copy, PartialEq, Eq, Structural)]
pub struct FrameSlotRequest {
    /// The frame slot whose synchronization primitives this frame uses.
    pub slot: usize,
    /// Whether the fence wait will actually block: `false` when the slot's
    /// fence is already signaled.
    pub would_block: bool,
}

/// What the driver answered an acquisition request with.
#[derive(Debug, Clone, Copy, PartialEq, Eq, Structural)]
pub enum AcquireOutcome {
    /// An image is available. `suboptimal` presentation is tolerated and the
    /// frame proceeds.
    Image { index: usize, suboptimal: bool },
    /// The swap chain no longer matches the surface; recreate and retry.
    OutOfDate,
    /// The acquisition timed out; recreate and retry.
    Timeout,
    /// The device was lost; fatal.
    Lost,
    /// The driver ran out of memory; fatal.
    OutOfMemory,
}

/// A frame in progress: the slot it runs on and the image it draws to.
#[derive(Debug, Clone, Copy, PartialEq, Eq, Structural)]
pub struct FrameHandle {
    pub slot: usize,
    pub image: usize,
}

/// What `submit` asks the shell to do with the recorded commands.
#[derive(Debug, Clone, Copy, PartialEq, Eq, Structural)]
pub struct SubmitPlan {
    pub slot: usize,
    pub image: usize,
    /// When the image was last used by another slot's submission, the shell
    /// must first wait on that slot's fence; `None` on the image's first
    /// use.
    pub wait_image_fence: Option<usize>,
    /// The submission waits on this slot's image-acquired semaphore before
    /// color-attachment-output work.
    pub wait_semaphore: usize,
    /// ... and signals this slot's render-finished semaphore,
    pub signal_semaphore: usize,
    /// ... and re-arms (resets, then signals on completion) this slot's
    /// fence.
    pub signal_fence: usize,
}

/// What the driver answered a present request with.
#[derive(Debug, Clone, Copy, PartialEq, Eq, Structural)]
pub enum PresentOutcome {
    Success,
    /// Presented, but the swap chain no longer matches the surface well;
    /// recreate before the next frame.
    Suboptimal,
    /// Not presented; recreate before the next frame.
    OutOfDate,
    /// The present request timed out; recreate before the next frame.
    Timeout,
    /// The device was lost; fatal.
    Lost,
    /// The driver ran out of memory; fatal.
    OutOfMemory,
}

/// The frame orchestrator. It owns the live swap chain's verified state and
/// two cursors: which image was just acquired and which frame slot the
/// current frame uses.
#[derive(Debug)]
pub struct Renderer {
    pub swapchain: Swapchain,
    pub phase: FramePhase,
    /// The image the current frame draws to; meaningful in `Recording` and
    /// `Submitted`.
    pub current_image: usize,
    /// Set by `notify_resized`; forces a recreation when the current frame
    /// completes.
    pub pending_resize: bool,
    /// The window extent most recently reported by the host.
    pub window_extent: Extent2D,
}

impl Renderer {
    /// The structural invariant every orchestrator keeps.
    pub open spec fn well_formed(&self) -> bool {
        &&& self.swapchain.well_formed()
        &&& (self.phase is Recording || self.phase is Submitted ==> self.current_image
            < self.swapchain.image_count)
    }

    /// Whether the next `begin_frame`'s fence wait would block.
    pub open spec fn begin_would_block(&self) -> bool {
        !self.swapchain.slot_fence_signaled@[self.swapchain.current_frame as int]
    }

    /// Take ownership of a freshly built swap chain and stand idle before
    /// the first frame.
    pub fn new(swapchain: Swapchain, window_extent: Extent2D) -> (r: Self)
        requires
            swapchain.well_formed(),
        ensures
            r.well_formed(),
            r.swapchain == swapchain,
            r.phase is Idle,
            r.current_image == 0,
            !r.pending_resize,
            r.window_extent == window_extent,
    {
        Renderer {
            swapchain,
            phase: FramePhase::Idle,
            current_image: 0,
            pending_resize: false,
            window_extent,
        }
    }

    /// Start a frame: the shell must wait on the returned slot's fence (the
    /// backpressure bounding in-flight work to [`FRAMES_IN_FLIGHT`] frames)
    /// and then request the next image. The wait blocks exactly when the
    /// slot's fence is not yet signaled; after it the fence is signaled.
    pub fn begin_frame(&mut self) -> (r: FrameSlotRequest)
        requires
            old(self).well_formed(),
            old(self).phase is Idle,
        ensures
            final(self).well_formed(),
            r.slot == old(self).swapchain.current_frame,
            r.would_block == old(self).begin_would_block(),
            final(self).phase is AwaitingAcquire,
            final(self).swapchain.slot_fence_signaled@ == old(
                self,
            ).swapchain.slot_fence_signaled@.update(r.slot as int, true),
            final(self).swapchain.images_in_flight == old(self).swapchain.images_in_flight,
            final(self).swapchain.current_frame == old(self).swapchain.current_frame,
            final(self).swapchain.image_format == old(self).swapchain.image_format,
            final(self).swapchain.depth_format == old(self).swapchain.depth_format,
            final(self).swapchain.extent == old(self).swapchain.extent,
            final(self).swapchain.image_count == old(self).swapchain.image_count,
            final(self).pending_resize == old(self).pending_resize,
            final(self).window_extent == old(self).window_extent,
    {
        let slot = self.swapchain.current_frame;
        let would_block = !self.swapchain.slot_fence_signaled[slot];
        // After the shell's wait returns, the fence is signaled.
        self.swapchain.slot_fence_signaled.set(slot, true);
        self.phase = FramePhase::AwaitingAcquire;
        FrameSlotRequest { slot, would_block }
    }

    /// Feed back what the acquisition request returned. An image (even a
    /// suboptimal one) starts recording; an out-of-date or timed-out surface
    /// parks the frame for recreation, to be retried afterwards; a lost
    /// device or exhausted memory is fatal.
    pub fn complete_acquire(&mut self, outcome: AcquireOutcome) -> (r: NeedleErr<
        Option<FrameHandle>,
    >)
        requires
            old(self).well_formed(),
            old(self).phase is AwaitingAcquire,
            outcome matches AcquireOutcome::Image { index, .. } ==> index < old(
                self,
            ).swapchain.image_count,
        ensures
            final(self).well_formed(),
            final(self).swapchain == old(self).swapchain,
            final(self).pending_resize == old(self).pending_resize,
            final(self).window_extent == old(self).window_extent,
            match outcome {
                AcquireOutcome::Image { index, suboptimal } => {
                    &&& r == Ok::<Option<FrameHandle>, NeedleError>(
                        Some(
                            FrameHandle {
                                slot: old(self).swapchain.current_frame,
                                image: index,
                            },
                        ),
                    )
                    &&& final(self).phase is Recording
                    &&& final(self).current_image == index
                },
                AcquireOutcome::OutOfDate | AcquireOutcome::Timeout => {
                    &&& r == Ok::<Option<FrameHandle>, NeedleError>(None)
                    &&& final(self).phase is NeedsRecreate
                    &&& final(self).current_image == old(self).current_image
                },
                AcquireOutcome::Lost => {
                    &&& r matches Err(e) && e is Lost
                    &&& final(self).phase is Failed
                },
                AcquireOutcome::OutOfMemory => {
                    &&& r matches Err(e) && e is OutOfMemory
                    &&& final(self).phase is Failed
                },
            },
    {
        match outcome {
            AcquireOutcome::Image { index, suboptimal: _ } => {
                self.current_image = index;
                self.phase = FramePhase::Recording;
                Ok(Some(FrameHandle { slot: self.swapchain.current_frame, image: index }))
            },
            AcquireOutcome::OutOfDate | AcquireOutcome::Timeout => {
                self.phase = FramePhase::NeedsRecreate;
                Ok(None)
            },
            AcquireOutcome::Lost => {
                self.phase = FramePhase::Failed;
                Err(NeedleError::Lost)
            },
            AcquireOutcome::OutOfMemory => {
                self.phase = FramePhase::Failed;
                Err(NeedleError::OutOfMemory)
            },
        }
    }

    /// Hand the recorded commands to the graphics queue. When another slot's
    /// submission still holds the acquired image, the shell must first wait
    /// on that slot's fence (reported in the plan); the image is then marked
    /// as used by this slot and this slot's fence is re-armed, so the wait
    /// in a later `begin_frame` blocks until the GPU finishes this frame.
    pub fn submit(&mut self) -> (r: SubmitPlan)
        requires
            old(self).well_formed(),
            old(self).phase is Recording,
        ensures
            final(self).well_formed(),
            r.slot == old(self).swapchain.current_frame,
            r.image == old(self).current_image,
            r.wait_image_fence == old(self).swapchain.images_in_flight@[r.image as int],
            r.wait_semaphore == r.slot,
            r.signal_semaphore == r.slot,
            r.signal_fence == r.slot,
            final(self).phase is Submitted,
            final(self).current_image == old(self).current_image,
            final(self).swapchain.images_in_flight@ == old(
                self,
            ).swapchain.images_in_flight@.update(
                r.image as int,
                Some(old(self).swapchain.current_frame),
            ),
            final(self).swapchain.slot_fence_signaled@ == (match old(
                self,
            ).swapchain.images_in_flight@[r.image as int] {
                Some(other) => old(self).swapchain.slot_fence_signaled@.update(
                    other as int,
                    true,
                ).update(r.slot as int, false),
                None => old(self).swapchain.slot_fence_signaled@.update(r.slot as int, false),
            }),
            final(self).swapchain.current_frame == old(self).swapchain.current_frame,
            final(self).swapchain.image_format == old(self).swapchain.image_format,
            final(self).swapchain.depth_format == old(self).swapchain.depth_format,
            final(self).swapchain.extent == old(self).swapchain.extent,
            final(self).swapchain.image_count == old(self).swapchain.image_count,
            final(self).pending_resize == old(self).pending_resize,
            final(self).window_extent == old(self).window_extent,
    {
        let slot = self.swapchain.current_frame;
        let image = self.current_image;
        let wait_image_fence = self.swapchain.images_in_flight[image];
        match wait_image_fence {
            Some(other) => {
                // The shell waits on that fence; afterwards it is signaled.
                self.swapchain.slot_fence_signaled.set(other, true);
            },
            None => {},
        }
        self.swapchain.images_in_flight.set(image, Some(slot));
        // The slot's fence is reset and will only signal when the GPU
        // finishes this submission.
        self.swapchain.slot_fence_signaled.set(slot, false);
        self.phase = FramePhase::Submitted;
        SubmitPlan {
            slot,
            image,
            wait_image_fence,
            wait_semaphore: slot,
            signal_semaphore: slot,
            signal_fence: slot,
        }
    }

    /// Feed back what the present request returned and close the frame. The
    /// frame-slot cursor advances on every non-fatal outcome; a suboptimal,
    /// out-of-date or timed-out present — or a resize the host reported
    /// meanwhile — parks the orchestrator for recreation; a lost device or
    /// exhausted memory is fatal and propagates.
    pub fn end_frame(&mut self, outcome: PresentOutcome) -> (r: NeedleErr<()>)
        requires
            old(self).well_formed(),
            old(self).phase is Submitted,
        ensures
            final(self).well_formed(),
            final(self).swapchain.slot_fence_signaled == old(self).swapchain.slot_fence_signaled,
            final(self).swapchain.images_in_flight == old(self).swapchain.images_in_flight,
            final(self).swapchain.image_format == old(self).swapchain.image_format,
            final(self).swapchain.depth_format == old(self).swapchain.depth_format,
            final(self).swapchain.extent == old(self).swapchain.extent,
            final(self).swapchain.image_count == old(self).swapchain.image_count,
            final(self).pending_resize == old(self).pending_resize,
            final(self).window_extent == old(self).window_extent,
            match outcome {
                PresentOutcome::Success => {
                    &&& r is Ok
                    &&& final(self).swapchain.current_frame == (old(self).swapchain.current_frame
                        + 1) % (FRAMES_IN_FLIGHT as int)
                    &&& if old(self).pending_resize {
                        final(self).phase is NeedsRecreate
                    } else {
                        final(self).phase is Idle
                    }
                },
                PresentOutcome::Suboptimal | PresentOutcome::OutOfDate | PresentOutcome::Timeout => {
                    &&& r is Ok
                    &&& final(self).swapchain.current_frame == (old(self).swapchain.current_frame
                        + 1) % (FRAMES_IN_FLIGHT as int)
                    &&& final(self).phase is NeedsRecreate
                },
                PresentOutcome::Lost => {
                    &&& r matches Err(e) && e is Lost
                    &&& final(self).phase is Failed
                },
                PresentOutcome::OutOfMemory => {
                    &&& r matches Err(e) && e is OutOfMemory
                    &&& final(self).phase is Failed
                },
            },
    {
        match outcome {
            PresentOutcome::Success => {
                self.swapchain.current_frame = (self.swapchain.current_frame + 1)
                    % FRAMES_IN_FLIGHT;
                if self.pending_resize {
                    self.phase = FramePhase::NeedsRecreate;
                } else {
                    self.phase = FramePhase::Idle;
                }
                Ok(())
            },
            PresentOutcome::Suboptimal | PresentOutcome::OutOfDate | PresentOutcome::Timeout => {
                self.swapchain.current_frame = (self.swapchain.current_frame + 1)
                    % FRAMES_IN_FLIGHT;
                self.phase = FramePhase::NeedsRecreate;
                Ok(())
            },
            PresentOutcome::Lost => {
                self.phase = FramePhase::Failed;
                Err(NeedleError::Lost)
            },
            PresentOutcome::OutOfMemory => {
                self.phase = FramePhase::Failed;
                Err(NeedleError::OutOfMemory)
            },
        }
    }

    /// The host reports a new window extent. The flag forces a recreation
    /// when the current frame completes.
    pub fn notify_resized(&mut self, width: u32, height: u32)
        requires
            old(self).well_formed(),
        ensures
            final(self).well_formed(),
            final(self).pending_resize,
            final(self).window_extent == (Extent2D { width, height }),
            final(self).phase == old(self).phase,
            final(self).swapchain == old(self).swapchain,
            final(self).current_image == old(self).current_image,
    {
        self.pending_resize = true;
        self.window_extent = Extent2D { width, height };
    }

    /// One observation of the window extent while a recreation is pending.
    /// A zero-area extent parks the orchestrator — creating a zero-sized
    /// swap chain is invalid — and control returns to the host event loop;
    /// only a non-zero extent lets recreation proceed.
    pub fn observe_extent(&mut self, extent: Extent2D) -> (r: bool)
        requires
            old(self).well_formed(),
            old(self).phase is NeedsRecreate || old(self).phase is WaitingForResize,
        ensures
            final(self).well_formed(),
            final(self).swapchain == old(self).swapchain,
            final(self).current_image == old(self).current_image,
            final(self).pending_resize == old(self).pending_resize,
            final(self).window_extent == extent,
            r == (extent.width > 0 && extent.height > 0),
            r ==> final(self).phase is RecreateReady,
            !r ==> final(self).phase is WaitingForResize,
    {
        self.window_extent = extent;
        if extent.width > 0 && extent.height > 0 {
            self.phase = FramePhase::RecreateReady;
            true
        } else {
            self.phase = FramePhase::WaitingForResize;
            false
        }
    }

    /// Install the rebuilt swap chain. The shell must have waited for the
    /// device to go idle and built the new chain with the old one's native
    /// handle as a hint. A color or depth format differing from the prior
    /// chain is a fatal format mismatch: the old chain stays in place and
    /// the orchestrator fails.
    pub fn complete_recreate(&mut self, new_swapchain: Swapchain) -> (r: NeedleErr<()>)
        requires
            old(self).well_formed(),
            old(self).phase is RecreateReady,
            new_swapchain.well_formed(),
        ensures
            final(self).well_formed(),
            final(self).window_extent == old(self).window_extent,
            if old(self).swapchain.image_format == new_swapchain.image_format && old(
                self,
            ).swapchain.depth_format == new_swapchain.depth_format {
                &&& r is Ok
                &&& final(self).swapchain == new_swapchain
                &&& final(self).phase is Idle
                &&& !final(self).pending_resize
            } else {
                &&& r matches Err(e) && e is FormatMismatch
                &&& final(self).swapchain == old(self).swapchain
                &&& final(self).phase is Failed
            },
    {
        if self.swapchain.compare_swap_formats(&new_swapchain) {
            self.swapchain = new_swapchain;
            self.phase = FramePhase::Idle;
            self.pending_resize = false;
            Ok(())
        } else {
            self.phase = FramePhase::Failed;
            Err(NeedleError::FormatMismatch)
        }
    }

    /// End the session. Must be called exactly once and must be the last
    /// call; the shell then waits for the device to go idle and runs the
    /// teardown sequences.
    pub fn shutdown(&mut self)
        requires
            old(self).well_formed(),
            !(old(self).phase is Terminated),
        ensures
            final(self).well_formed(),
            final(self).phase is Terminated,
            final(self).swapchain == old(self).swapchain,
    {
        self.phase = FramePhase::Terminated;
    }
}

/// The slot fences of a freshly built swap chain are all created signaled,
/// so the very first `begin_frame` never blocks: its fence wait returns
/// immediately.
pub proof fn lemma_first_begin_frame_does_not_block(orchestrator: Renderer)
    requires
        orchestrator.well_formed(),
        forall|i: int|
            0 <= i < FRAMES_IN_FLIGHT ==> orchestrator.swapchain.slot_fence_signaled@[i],
    ensures
        !orchestrator.begin_would_block(),
{
}

} // verus!
