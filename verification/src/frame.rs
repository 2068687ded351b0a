//! The per-frame synchronisation protocol.
//!
//! One CPU thread repeats: wait for the previous acquire to retire, acquire
//! a swapchain image, wait for the draw command buffer to be reusable,
//! re-record it, submit it, present.  Fences gate CPU-side reuse of a
//! resource; semaphores order the GPU queue.  The controller in this module
//! decides every step of that cycle and emits it as data; the driver front
//! end performs the calls in the order given.  The controller's trace
//! invariant pins the protocol's safety property: the draw command buffer is
//! never reset while work submitted on it might still be running.

use crate::swapchain::{spec_recreate_steps, recreate_steps, Extent, ResizeStep};
use vstd::prelude::*;

verus! {

/// The fences of the frame loop, each created pre-signaled.
#[derive(Clone, Copy, Debug, PartialEq, Eq, Structural)]
pub enum FenceId {
    /// Gates CPU reuse of the draw command buffer.
    DrawReuse,
    /// Gates CPU reuse of the setup command buffer.
    SetupReuse,
    /// Gates the next acquire: prevents acquiring faster than the GPU
    /// drains, since acquire itself is asynchronous on some drivers.
    SwapchainAcquire,
}

/// The semaphores ordering the GPU queue.
#[derive(Clone, Copy, Debug, PartialEq, Eq, Structural)]
pub enum SemaphoreId {
    /// Signaled when the acquired image is ready to be rendered to.
    PresentComplete,
    /// Signaled when the submitted frame has finished rendering.
    RenderComplete,
}

/// The images the recorded commands act on.
#[derive(Clone, Copy, Debug, PartialEq, Eq, Structural)]
pub enum ImageId {
    /// The acquired swapchain image presented to the surface.
    Swapchain,
    /// The offscreen image the ray-tracing dispatch writes.
    RtOutput,
}

/// Image layouts the recorded barriers move between.
#[derive(Clone, Copy, Debug, PartialEq, Eq, Structural)]
pub enum ImageLayout {
    Undefined,
    General,
    TransferSrc,
    TransferDst,
    PresentSrc,
}

/// One command recorded into the draw command buffer.
#[derive(Clone, Copy, Debug, PartialEq, Eq, Structural)]
pub enum FrameCommand {
    /// Barrier from ray-tracing shader reads to transfer writes, so the
    /// uniform update cannot race a previous frame's dispatch still reading.
    UniformReadToWriteBarrier,
    /// Write the new per-frame uniform data into the uniform buffer.
    UpdateUniforms,
    /// Barrier from transfer writes back to ray-tracing shader reads.
    UniformWriteToReadBarrier,
    /// Bind the ray-tracing pipeline.
    BindPipeline,
    /// Bind the descriptor sets of the pipeline.
    BindDescriptorSets,
    /// Dispatch rays over the surface resolution.
    TraceRays { width: u32, height: u32 },
    /// Transition `image` from `from` to `to`.
    ImageBarrier { image: ImageId, from: ImageLayout, to: ImageLayout },
    /// Copy the full extent of `src` into `dst`.
    CopyImage { src: ImageId, dst: ImageId },
}

/// One driver call of the frame cycle, performed by the CPU thread.
#[derive(Clone, Copy, Debug, PartialEq, Eq, Structural)]
pub enum FrameAction {
    /// Block until `fence` is signaled.
    WaitFence { fence: FenceId },
    /// Unsignal `fence`.
    ResetFence { fence: FenceId },
    /// Acquire the next swapchain image, to signal `signal_semaphore` and
    /// `signal_fence` when it is ready.
    AcquireImage { signal_semaphore: SemaphoreId, signal_fence: FenceId },
    /// Reset the draw command buffer for re-recording.
    ResetCommandBuffer,
    /// Begin recording the draw command buffer, one-time submit.
    BeginCommandBuffer,
    /// Record one command into the draw command buffer.
    Record { command: FrameCommand },
    /// End recording.
    EndCommandBuffer,
    /// Submit the draw command buffer: wait on `wait_semaphore`, signal
    /// `signal_semaphore`, signal `signal_fence` on completion.
    Submit { wait_semaphore: SemaphoreId, signal_semaphore: SemaphoreId, signal_fence: FenceId },
    /// Present the acquired image once `wait_semaphore` is signaled.
    Present { wait_semaphore: SemaphoreId },
}

/// The fixed body of a frame's command buffer: the optional guarded uniform
/// update, the dispatch, then the barrier-and-copy chain that moves the
/// offscreen result into the presentable image and restores both layouts.
pub open spec fn spec_frame_commands(width: u32, height: u32, update_uniforms: bool) -> Seq<
    FrameCommand,
> {
    let uniforms = seq![
        FrameCommand::UniformReadToWriteBarrier,
        FrameCommand::UpdateUniforms,
        FrameCommand::UniformWriteToReadBarrier,
    ];
    let body = seq![
        FrameCommand::BindPipeline,
        FrameCommand::BindDescriptorSets,
        FrameCommand::TraceRays { width, height },
        FrameCommand::ImageBarrier {
            image: ImageId::Swapchain,
            from: ImageLayout::Undefined,
            to: ImageLayout::TransferDst,
        },
        FrameCommand::ImageBarrier {
            image: ImageId::RtOutput,
            from: ImageLayout::General,
            to: ImageLayout::TransferSrc,
        },
        FrameCommand::CopyImage { src: ImageId::RtOutput, dst: ImageId::Swapchain },
        FrameCommand::ImageBarrier {
            image: ImageId::Swapchain,
            from: ImageLayout::TransferDst,
            to: ImageLayout::PresentSrc,
        },
        FrameCommand::ImageBarrier {
            image: ImageId::RtOutput,
            from: ImageLayout::TransferSrc,
            to: ImageLayout::General,
        },
    ];
    if update_uniforms {
        uniforms + body
    } else {
        body
    }
}

/// Emits the command sequence of one frame's draw command buffer.
pub fn frame_commands(width: u32, height: u32, update_uniforms: bool) -> (cmds: Vec<FrameCommand>)
    ensures
        cmds@ == spec_frame_commands(width, height, update_uniforms),
{
    let mut cmds: Vec<FrameCommand> = Vec::new();
    if update_uniforms {
        cmds.push(FrameCommand::UniformReadToWriteBarrier);
        cmds.push(FrameCommand::UpdateUniforms);
        cmds.push(FrameCommand::UniformWriteToReadBarrier);
    }
    cmds.push(FrameCommand::BindPipeline);
    cmds.push(FrameCommand::BindDescriptorSets);
    cmds.push(FrameCommand::TraceRays { width, height });
    cmds.push(
        FrameCommand::ImageBarrier {
            image: ImageId::Swapchain,
            from: ImageLayout::Undefined,
            to: ImageLayout::TransferDst,
        },
    );
    cmds.push(
        FrameCommand::ImageBarrier {
            image: ImageId::RtOutput,
            from: ImageLayout::General,
            to: ImageLayout::TransferSrc,
        },
    );
    cmds.push(FrameCommand::CopyImage { src: ImageId::RtOutput, dst: ImageId::Swapchain });
    cmds.push(
        FrameCommand::ImageBarrier {
            image: ImageId::Swapchain,
            from: ImageLayout::TransferDst,
            to: ImageLayout::PresentSrc,
        },
    );
    cmds.push(
        FrameCommand::ImageBarrier {
            image: ImageId::RtOutput,
            from: ImageLayout::TransferSrc,
            to: ImageLayout::General,
        },
    );
    proof {
        assert(cmds@ =~= spec_frame_commands(width, height, update_uniforms));
    }
    cmds
}

/// The layouts of the two images the frame touches.
#[derive(Clone, Copy, Debug, PartialEq, Eq, Structural)]
pub struct ImageLayouts {
    pub swapchain: ImageLayout,
    pub rt_output: ImageLayout,
}

/// The layouts at the start of a frame: the swapchain image's content is
/// discarded (undefined), the offscreen image stays in the general layout
/// the dispatch writes to.
pub open spec fn spec_initial_layouts() -> ImageLayouts {
    ImageLayouts { swapchain: ImageLayout::Undefined, rt_output: ImageLayout::General }
}

/// The effect of one command on the tracked layouts, or `None` when the
/// command is invalid against them: a barrier whose source layout does not
/// match (unless it discards via undefined), a copy whose endpoints are not
/// in the transfer layouts, or a dispatch while the output image is not in
/// the general layout.
pub open spec fn spec_apply_command(l: ImageLayouts, c: FrameCommand) -> Option<ImageLayouts> {
    match c {
        FrameCommand::ImageBarrier { image, from, to } => {
            let current = match image {
                ImageId::Swapchain => l.swapchain,
                ImageId::RtOutput => l.rt_output,
            };
            if from == current || from is Undefined {
                Some(
                    match image {
                        ImageId::Swapchain => ImageLayouts { swapchain: to, ..l },
                        ImageId::RtOutput => ImageLayouts { rt_output: to, ..l },
                    },
                )
            } else {
                None
            }
        },
        FrameCommand::CopyImage { src, dst } => {
            let src_layout = match src {
                ImageId::Swapchain => l.swapchain,
                ImageId::RtOutput => l.rt_output,
            };
            let dst_layout = match dst {
                ImageId::Swapchain => l.swapchain,
                ImageId::RtOutput => l.rt_output,
            };
            if src_layout is TransferSrc && dst_layout is TransferDst {
                Some(l)
            } else {
                None
            }
        },
        FrameCommand::TraceRays { .. } => {
            if l.rt_output is General {
                Some(l)
            } else {
                None
            }
        },
        _ => Some(l),
    }
}

/// Replays `cmds` from position `i` onward over the tracked layouts.
pub open spec fn spec_replay_from(l: ImageLayouts, cmds: Seq<FrameCommand>, i: int) -> Option<
    ImageLayouts,
>
    decreases cmds.len() - i,
{
    if i < 0 || i >= cmds.len() {
        Some(l)
    } else {
        match spec_apply_command(l, cmds[i]) {
            Option::None => None,
            Option::Some(l2) => spec_replay_from(l2, cmds, i + 1),
        }
    }
}

/// The layouts after replaying a whole command sequence, or `None` when
/// some command was invalid.
pub open spec fn spec_replay(l: ImageLayouts, cmds: Seq<FrameCommand>) -> Option<ImageLayouts> {
    spec_replay_from(l, cmds, 0)
}

/// Replays a command sequence over the tracked layouts, reporting the final
/// layouts, or `None` as soon as a command is invalid against them.  An
/// instrumented front end runs this over a command buffer before submitting
/// it, the way a validation layer would.
pub fn check_layout_transitions(cmds: &Vec<FrameCommand>, initial: ImageLayouts) -> (r: Option<
    ImageLayouts,
>)
    ensures
        r == spec_replay(initial, cmds@),
{
    let n = cmds.len();
    let mut current = initial;
    let mut i: usize = 0;
    while i < n
        invariant
            i <= n,
            n == cmds@.len(),
            spec_replay(initial, cmds@) == spec_replay_from(current, cmds@, i as int),
        decreases n - i,
    {
        let next = match cmds[i] {
            FrameCommand::ImageBarrier { image, from, to } => {
                let matches_current = match image {
                    ImageId::Swapchain => from == current.swapchain,
                    ImageId::RtOutput => from == current.rt_output,
                };
                if matches_current || matches!(from, ImageLayout::Undefined) {
                    Some(
                        match image {
                            ImageId::Swapchain => ImageLayouts { swapchain: to, ..current },
                            ImageId::RtOutput => ImageLayouts { rt_output: to, ..current },
                        },
                    )
                } else {
                    None
                }
            },
            FrameCommand::CopyImage { src, dst } => {
                let src_ok = match src {
                    ImageId::Swapchain => matches!(current.swapchain, ImageLayout::TransferSrc),
                    ImageId::RtOutput => matches!(current.rt_output, ImageLayout::TransferSrc),
                };
                let dst_ok = match dst {
                    ImageId::Swapchain => matches!(current.swapchain, ImageLayout::TransferDst),
                    ImageId::RtOutput => matches!(current.rt_output, ImageLayout::TransferDst),
                };
                if src_ok && dst_ok {
                    Some(current)
                } else {
                    None
                }
            },
            FrameCommand::TraceRays { .. } => {
                if matches!(current.rt_output, ImageLayout::General) {
                    Some(current)
                } else {
                    None
                }
            },
            _ => Some(current),
        };
        match next {
            Some(l2) => {
                current = l2;
            },
            None => {
                return None;
            },
        }
        i += 1;
    }
    Some(current)
}

/// Every frame leaves the images where the next frame expects them: the
/// recorded command sequence replays without an invalid transition, ends
/// with the swapchain image presentable, and returns the offscreen image to
/// the general layout the next dispatch writes to.
pub proof fn lemma_frame_commands_restore_layouts(width: u32, height: u32, update_uniforms: bool)
    ensures
        spec_replay(spec_initial_layouts(), spec_frame_commands(width, height, update_uniforms))
            == Some(
            ImageLayouts { swapchain: ImageLayout::PresentSrc, rt_output: ImageLayout::General },
        ),
{
    let cmds = spec_frame_commands(width, height, update_uniforms);
    let l0 = spec_initial_layouts();
    if update_uniforms {
        assert(spec_replay_from(l0, cmds, 0) == spec_replay_from(l0, cmds, 1));
        assert(spec_replay_from(l0, cmds, 1) == spec_replay_from(l0, cmds, 2));
        assert(spec_replay_from(l0, cmds, 2) == spec_replay_from(l0, cmds, 3));
        assert(spec_replay_from(l0, cmds, 3) == spec_replay_from(l0, cmds, 4));
        assert(spec_replay_from(l0, cmds, 4) == spec_replay_from(l0, cmds, 5));
        assert(spec_replay_from(l0, cmds, 5) == spec_replay_from(l0, cmds, 6));
        let l1 = ImageLayouts { swapchain: ImageLayout::TransferDst, rt_output: ImageLayout::General };
        assert(spec_replay_from(l0, cmds, 6) == spec_replay_from(l1, cmds, 7));
        let l2 = ImageLayouts {
            swapchain: ImageLayout::TransferDst,
            rt_output: ImageLayout::TransferSrc,
        };
        assert(spec_replay_from(l1, cmds, 7) == spec_replay_from(l2, cmds, 8));
        assert(spec_replay_from(l2, cmds, 8) == spec_replay_from(l2, cmds, 9));
        let l3 = ImageLayouts {
            swapchain: ImageLayout::PresentSrc,
            rt_output: ImageLayout::TransferSrc,
        };
        assert(spec_replay_from(l2, cmds, 9) == spec_replay_from(l3, cmds, 10));
        let l4 = ImageLayouts { swapchain: ImageLayout::PresentSrc, rt_output: ImageLayout::General };
        assert(spec_replay_from(l3, cmds, 10) == spec_replay_from(l4, cmds, 11));
        assert(spec_replay_from(l4, cmds, 11) == Some(l4));
    } else {
        assert(spec_replay_from(l0, cmds, 0) == spec_replay_from(l0, cmds, 1));
        assert(spec_replay_from(l0, cmds, 1) == spec_replay_from(l0, cmds, 2));
        assert(spec_replay_from(l0, cmds, 2) == spec_replay_from(l0, cmds, 3));
        let l1 = ImageLayouts { swapchain: ImageLayout::TransferDst, rt_output: ImageLayout::General };
        assert(spec_replay_from(l0, cmds, 3) == spec_replay_from(l1, cmds, 4));
        let l2 = ImageLayouts {
            swapchain: ImageLayout::TransferDst,
            rt_output: ImageLayout::TransferSrc,
        };
        assert(spec_replay_from(l1, cmds, 4) == spec_replay_from(l2, cmds, 5));
        assert(spec_replay_from(l2, cmds, 5) == spec_replay_from(l2, cmds, 6));
        let l3 = ImageLayouts {
            swapchain: ImageLayout::PresentSrc,
            rt_output: ImageLayout::TransferSrc,
        };
        assert(spec_replay_from(l2, cmds, 6) == spec_replay_from(l3, cmds, 7));
        let l4 = ImageLayouts { swapchain: ImageLayout::PresentSrc, rt_output: ImageLayout::General };
        assert(spec_replay_from(l3, cmds, 7) == spec_replay_from(l4, cmds, 8));
        assert(spec_replay_from(l4, cmds, 8) == Some(l4));
    }
}

/// Whether, after the calls in `trace`, no work submitted on the draw
/// command buffer can still be pending: the trace is empty (the fences are
/// created signaled and nothing was submitted), or the most recent of
/// draw-fence wait and submit is the wait.
pub open spec fn draw_idle(trace: Seq<FrameAction>) -> bool
    decreases trace.len(),
{
    if trace.len() == 0 {
        true
    } else {
        match trace.last() {
            FrameAction::WaitFence { fence } => {
                if fence is DrawReuse {
                    true
                } else {
                    draw_idle(trace.drop_last())
                }
            },
            FrameAction::Submit { .. } => false,
            _ => draw_idle(trace.drop_last()),
        }
    }
}

/// The frame loop's safety property: every reset of the draw command buffer
/// happens at a point of the trace where all previously submitted work on
/// it has been waited for through the draw-reuse fence, so at most one
/// recording of that buffer is ever in flight unwaited.
pub open spec fn resets_guarded(trace: Seq<FrameAction>) -> bool {
    forall|i: int|
        0 <= i < trace.len() && (#[trigger] trace[i]) is ResetCommandBuffer ==> draw_idle(
            trace.take(i),
        )
}

proof fn lemma_resets_guarded_append(t: Seq<FrameAction>, ext: Seq<FrameAction>)
    requires
        resets_guarded(t),
        forall|j: int|
            0 <= j < ext.len() && (#[trigger] ext[j]) is ResetCommandBuffer ==> draw_idle(
                (t + ext).take(t.len() + j),
            ),
    ensures
        resets_guarded(t + ext),
{
    let n = t + ext;
    assert forall|i: int|
        0 <= i < n.len() && (#[trigger] n[i]) is ResetCommandBuffer implies draw_idle(
        n.take(i),
    ) by {
        if i < t.len() {
            assert(n[i] == t[i]);
            assert(n.take(i) =~= t.take(i));
        } else {
            let j = i - t.len();
            assert(ext[j] == n[i]);
            assert(draw_idle(n.take(t.len() + j)));
        }
    }
}

/// Where the controller stands in the frame cycle.
#[derive(Clone, Copy, Debug, PartialEq, Eq, Structural)]
pub enum FramePhase {
    /// Between frames; a resize may be applied here.
    Idle,
    /// The acquire has been issued; the frame is being prepared.
    Acquiring,
    /// The draw command buffer has been submitted.
    Submitted,
    /// The present has been issued; its result is awaited.
    Presenting,
}

/// The frame-cycle actions that prepare, record and submit one frame, given
/// the surface extent and whether the uniforms change this frame.
pub open spec fn spec_submit_actions(width: u32, height: u32, update_uniforms: bool) -> Seq<
    FrameAction,
> {
    seq![
        FrameAction::WaitFence { fence: FenceId::DrawReuse },
        FrameAction::ResetFence { fence: FenceId::DrawReuse },
        FrameAction::ResetCommandBuffer,
        FrameAction::BeginCommandBuffer,
    ] + spec_frame_commands(width, height, update_uniforms).map_values(
        |c: FrameCommand| FrameAction::Record { command: c },
    ) + seq![
        FrameAction::EndCommandBuffer,
        FrameAction::Submit {
            wait_semaphore: SemaphoreId::PresentComplete,
            signal_semaphore: SemaphoreId::RenderComplete,
            signal_fence: FenceId::DrawReuse,
        },
    ]
}

/// The frame-cycle actions that begin a frame: throttle on the acquire
/// fence, then acquire the next image.
pub open spec fn spec_begin_actions() -> Seq<FrameAction> {
    seq![
        FrameAction::WaitFence { fence: FenceId::SwapchainAcquire },
        FrameAction::ResetFence { fence: FenceId::SwapchainAcquire },
        FrameAction::AcquireImage {
            signal_semaphore: SemaphoreId::PresentComplete,
            signal_fence: FenceId::SwapchainAcquire,
        },
    ]
}

/// The controller of the frame cycle.  It owns no driver objects; it owns
/// the protocol: each method moves the cycle one phase forward and returns
/// the driver calls to perform, and the controller's whole emitted history
/// keeps the reset-after-wait discipline.
pub struct FrameLoop {
    phase: FramePhase,
    width: u32,
    height: u32,
    resize_pending: bool,
    swapchain_generation: u64,
    trace: Ghost<Seq<FrameAction>>,
}

impl FrameLoop {
    /// The phase the controller is in.
    pub closed spec fn phase(self) -> FramePhase {
        self.phase
    }

    /// The surface extent the frames are rendered at.
    pub closed spec fn extent(self) -> Extent {
        Extent { width: self.width, height: self.height }
    }

    /// Whether a resize is pending.
    pub closed spec fn resize_pending(self) -> bool {
        self.resize_pending
    }

    /// How many times the swapchain has been created.
    pub closed spec fn generation(self) -> u64 {
        self.swapchain_generation
    }

    /// Every frame action the controller has emitted, in order.
    pub closed spec fn trace(self) -> Seq<FrameAction> {
        self.trace@
    }

    /// The controller's invariant: its emitted history never resets the
    /// draw command buffer while submitted work may be pending.
    pub open spec fn wf(self) -> bool {
        resets_guarded(self.trace())
    }

    /// What a subsequent frame render observes of the controller: the
    /// resolution it renders at and whether a resize is still owed.  The
    /// swapchain generation is deliberately not here; it names the objects,
    /// not their observable shape.
    pub open spec fn render_observable(self) -> (Extent, bool) {
        (self.extent(), self.resize_pending())
    }

    /// A fresh controller at the initial surface resolution, between
    /// frames, with nothing emitted yet.
    pub fn new(width: u32, height: u32) -> (fl: FrameLoop)
        ensures
            fl.wf(),
            fl.phase() is Idle,
            fl.extent() == (Extent { width, height }),
            !fl.resize_pending(),
            fl.generation() == 1,
            fl.trace() == Seq::<FrameAction>::empty(),
    {
        FrameLoop {
            phase: FramePhase::Idle,
            width,
            height,
            resize_pending: false,
            swapchain_generation: 1,
            trace: Ghost(Seq::empty()),
        }
    }

    /// Begins a frame: wait on the swapchain-acquire fence until the
    /// previous acquire's work has retired, reset it, and acquire the next
    /// image with that fence and the present-complete semaphore.
    pub fn begin_frame(&mut self) -> (actions: Vec<FrameAction>)
        requires
            old(self).wf(),
            old(self).phase() is Idle,
            !old(self).resize_pending(),
        ensures
            final(self).wf(),
            final(self).phase() is Acquiring,
            actions@ == spec_begin_actions(),
            final(self).trace() == old(self).trace() + actions@,
            final(self).extent() == old(self).extent(),
            !final(self).resize_pending(),
            final(self).generation() == old(self).generation(),
    {
        let mut actions: Vec<FrameAction> = Vec::new();
        actions.push(FrameAction::WaitFence { fence: FenceId::SwapchainAcquire });
        actions.push(FrameAction::ResetFence { fence: FenceId::SwapchainAcquire });
        actions.push(
            FrameAction::AcquireImage {
                signal_semaphore: SemaphoreId::PresentComplete,
                signal_fence: FenceId::SwapchainAcquire,
            },
        );
        proof {
            assert(actions@ =~= spec_begin_actions());
        }
        self.phase = FramePhase::Acquiring;
        let ghost t = self.trace@;
        let ghost ext = actions@;
        self.trace = Ghost(t + ext);
        proof {
            assert forall|j: int|
                0 <= j < ext.len() && (#[trigger] ext[j]) is ResetCommandBuffer implies draw_idle(
                (t + ext).take(t.len() + j),
            ) by {
                assert(!(ext[j] is ResetCommandBuffer));
            }
            lemma_resets_guarded_append(t, ext);
        }
        actions
    }

    /// Records and submits the frame: wait for the draw-reuse fence so the
    /// command buffer is free, reset fence and buffer, record the frame's
    /// command sequence, and submit it to signal the render-complete
    /// semaphore and re-arm the draw-reuse fence.
    pub fn record_and_submit(&mut self, update_uniforms: bool) -> (actions: Vec<FrameAction>)
        requires
            old(self).wf(),
            old(self).phase() is Acquiring,
        ensures
            final(self).wf(),
            final(self).phase() is Submitted,
            actions@ == spec_submit_actions(
                old(self).extent().width,
                old(self).extent().height,
                update_uniforms,
            ),
            final(self).trace() == old(self).trace() + actions@,
            final(self).extent() == old(self).extent(),
            final(self).resize_pending() == old(self).resize_pending(),
            final(self).generation() == old(self).generation(),
    {
        let mut actions: Vec<FrameAction> = Vec::new();
        actions.push(FrameAction::WaitFence { fence: FenceId::DrawReuse });
        actions.push(FrameAction::ResetFence { fence: FenceId::DrawReuse });
        actions.push(FrameAction::ResetCommandBuffer);
        actions.push(FrameAction::BeginCommandBuffer);
        let cmds = frame_commands(self.width, self.height, update_uniforms);
        let n = cmds.len();
        let mut k: usize = 0;
        while k < n
            invariant
                k <= n,
                n == cmds@.len(),
                actions@ == seq![
                    FrameAction::WaitFence { fence: FenceId::DrawReuse },
                    FrameAction::ResetFence { fence: FenceId::DrawReuse },
                    FrameAction::ResetCommandBuffer,
                    FrameAction::BeginCommandBuffer,
                ] + cmds@.take(k as int).map_values(
                    |c: FrameCommand| FrameAction::Record { command: c },
                ),
            decreases n - k,
        {
            actions.push(FrameAction::Record { command: cmds[k] });
            proof {
                assert(actions@ =~= seq![
                    FrameAction::WaitFence { fence: FenceId::DrawReuse },
                    FrameAction::ResetFence { fence: FenceId::DrawReuse },
                    FrameAction::ResetCommandBuffer,
                    FrameAction::BeginCommandBuffer,
                ] + cmds@.take(k + 1).map_values(
                    |c: FrameCommand| FrameAction::Record { command: c },
                ));
            }
            k += 1;
        }
        actions.push(FrameAction::EndCommandBuffer);
        actions.push(
            FrameAction::Submit {
                wait_semaphore: SemaphoreId::PresentComplete,
                signal_semaphore: SemaphoreId::RenderComplete,
                signal_fence: FenceId::DrawReuse,
            },
        );
        proof {
            assert(cmds@.take(n as int) =~= cmds@);
            assert(actions@ =~= spec_submit_actions(self.width, self.height, update_uniforms));
        }
        self.phase = FramePhase::Submitted;
        let ghost t = self.trace@;
        let ghost ext = actions@;
        self.trace = Ghost(t + ext);
        proof {
            let prefix2 = (t + ext).take(t.len() as int + 2);
            assert(prefix2 =~= t + seq![
                FrameAction::WaitFence { fence: FenceId::DrawReuse },
                FrameAction::ResetFence { fence: FenceId::DrawReuse },
            ]);
            assert(prefix2.drop_last() =~= t + seq![
                FrameAction::WaitFence { fence: FenceId::DrawReuse },
            ]);
            assert(draw_idle(prefix2.drop_last()));
            assert(draw_idle(prefix2));
            assert forall|j: int|
                0 <= j < ext.len() && (#[trigger] ext[j]) is ResetCommandBuffer implies draw_idle(
                (t + ext).take(t.len() + j),
            ) by {
                if j != 2 {
                    if 4 <= j < 4 + n {
                        assert(ext[j] == FrameAction::Record { command: cmds@[j - 4] });
                    }
                    assert(!(ext[j] is ResetCommandBuffer));
                }
            }
            lemma_resets_guarded_append(t, ext);
        }
        actions
    }

    /// Presents the submitted frame, waiting on the render-complete
    /// semaphore.
    pub fn present_frame(&mut self) -> (actions: Vec<FrameAction>)
        requires
            old(self).wf(),
            old(self).phase() is Submitted,
        ensures
            final(self).wf(),
            final(self).phase() is Presenting,
            actions@ == seq![
                FrameAction::Present { wait_semaphore: SemaphoreId::RenderComplete },
            ],
            final(self).trace() == old(self).trace() + actions@,
            final(self).extent() == old(self).extent(),
            final(self).resize_pending() == old(self).resize_pending(),
            final(self).generation() == old(self).generation(),
    {
        let mut actions: Vec<FrameAction> = Vec::new();
        actions.push(FrameAction::Present { wait_semaphore: SemaphoreId::RenderComplete });
        proof {
            assert(actions@ =~= seq![
                FrameAction::Present { wait_semaphore: SemaphoreId::RenderComplete },
            ]);
        }
        self.phase = FramePhase::Presenting;
        let ghost t = self.trace@;
        let ghost ext = actions@;
        self.trace = Ghost(t + ext);
        proof {
            assert forall|j: int|
                0 <= j < ext.len() && (#[trigger] ext[j]) is ResetCommandBuffer implies draw_idle(
                (t + ext).take(t.len() + j),
            ) by {
                assert(!(ext[j] is ResetCommandBuffer));
            }
            lemma_resets_guarded_append(t, ext);
        }
        actions
    }

    /// Finishes the frame with the present's result.  A stale swapchain
    /// (out of date) is not an error: it marks a resize as pending, to be
    /// applied before the next frame begins.
    pub fn complete_present(&mut self, out_of_date: bool)
        requires
            old(self).wf(),
            old(self).phase() is Presenting,
        ensures
            final(self).wf(),
            final(self).phase() is Idle,
            final(self).resize_pending() == (old(self).resize_pending() || out_of_date),
            final(self).trace() == old(self).trace(),
            final(self).extent() == old(self).extent(),
            final(self).generation() == old(self).generation(),
    {
        self.phase = FramePhase::Idle;
        if out_of_date {
            self.resize_pending = true;
        }
    }

    /// Notes an externally observed resize, to be applied before the next
    /// frame begins.
    pub fn request_resize(&mut self)
        requires
            old(self).wf(),
        ensures
            final(self).wf(),
            final(self).resize_pending(),
            final(self).phase() == old(self).phase(),
            final(self).trace() == old(self).trace(),
            final(self).extent() == old(self).extent(),
            final(self).generation() == old(self).generation(),
    {
        self.resize_pending = true;
    }

    /// Whether a resize must be applied before the next frame.
    pub fn needs_resize(&self) -> (b: bool)
        ensures
            b == self.resize_pending(),
    {
        self.resize_pending
    }

    /// Applies the resize path at the new resolution and returns the
    /// recreation protocol to perform.  Leaves the controller rendering at
    /// the new extent with no resize owed; only the swapchain generation
    /// distinguishes this state from any other controller resized to the
    /// same resolution.
    pub fn apply_resize(&mut self, width: u32, height: u32) -> (steps: Vec<ResizeStep>)
        requires
            old(self).wf(),
            old(self).phase() is Idle,
            old(self).generation() < u64::MAX,
        ensures
            final(self).wf(),
            final(self).phase() is Idle,
            steps@ == spec_recreate_steps(width, height),
            resized_to(*final(self), width, height),
            final(self).generation() == old(self).generation() + 1,
            final(self).trace() == old(self).trace(),
    {
        self.width = width;
        self.height = height;
        self.resize_pending = false;
        self.swapchain_generation = self.swapchain_generation + 1;
        recreate_steps(width, height)
    }

    /// The current surface extent.
    pub fn current_extent(&self) -> (e: Extent)
        ensures
            e == self.extent(),
    {
        Extent { width: self.width, height: self.height }
    }
}

/// Whether the controller has just come through the resize path at
/// resolution `width` x `height`: it renders at that extent and owes no
/// further resize.
pub open spec fn resized_to(fl: FrameLoop, width: u32, height: u32) -> bool {
    &&& fl.extent() == (Extent { width, height })
    &&& !fl.resize_pending()
}

/// The frame loop's central safety law: in every trace a well-formed
/// controller can have emitted, each reset of the draw command buffer is
/// preceded by a wait on the draw-reuse fence with no submit in between, so
/// at most one recording of the draw command buffer is in flight unwaited
/// at any instant.
pub proof fn lemma_frame_loop_resets_guarded(fl: FrameLoop)
    requires
        fl.wf(),
    ensures
        resets_guarded(fl.trace()),
{
}

/// Every recorded command of a frame — the uniform-buffer write included —
/// lies strictly between the wait on the draw-reuse fence and the submit
/// that re-arms it: the GPU-read resources are only ever mutated while the
/// previous frame's work is known to have drained.
pub proof fn lemma_mutation_between_wait_and_submit(width: u32, height: u32, update_uniforms: bool)
    ensures
        ({
            let actions = spec_submit_actions(width, height, update_uniforms);
            &&& actions[0] == (FrameAction::WaitFence { fence: FenceId::DrawReuse })
            &&& actions[actions.len() - 1] is Submit
            &&& forall|j: int|
                0 <= j < actions.len() && (#[trigger] actions[j]) is Record ==> 0 < j
                    < actions.len() - 1
        }),
{
    let actions = spec_submit_actions(width, height, update_uniforms);
    assert(actions[0] == (FrameAction::WaitFence { fence: FenceId::DrawReuse }));
    assert(actions[actions.len() - 1] is Submit);
}

/// Resizing twice in succession to the same resolution is indistinguishable
/// from resizing once, as far as any subsequent frame render can observe:
/// both leave the controller rendering at that resolution with no resize
/// pending.  Only the swapchain generation counter, which names the
/// recreated objects rather than their shape, differs.
pub proof fn lemma_resize_idempotent(after_once: FrameLoop, after_twice: FrameLoop, width: u32, height: u32)
    requires
        resized_to(after_once, width, height),
        resized_to(after_twice, width, height),
    ensures
        after_once.render_observable() == after_twice.render_observable(),
{
}

} // verus!
