use rt_pipeline::frame::{
    check_layout_transitions, frame_commands, FenceId, FrameAction, FrameCommand, FrameLoop,
    ImageId, ImageLayout, ImageLayouts, SemaphoreId,
};
use rt_pipeline::swapchain::{recreate_steps, Extent, ResizeStep};

fn initial_layouts() -> ImageLayouts {
    ImageLayouts { swapchain: ImageLayout::Undefined, rt_output: ImageLayout::General }
}

#[test]
fn frame_commands_exact_order() {
    let cmds = frame_commands(1920, 1080, false);
    assert_eq!(
        cmds,
        vec![
            FrameCommand::BindPipeline,
            FrameCommand::BindDescriptorSets,
            FrameCommand::TraceRays { width: 1920, height: 1080 },
            FrameCommand::ImageBarrier {
                image: ImageId::Swapchain,
                from: ImageLayout::Undefined,
                to: ImageLayout::TransferDst,
            },
            FrameCommand::ImageBarrier {
                image: ImageId::RtOutput,
                from: ImageLayout::General,
                to: ImageLayout::TransferSrc,
            },
            FrameCommand::CopyImage { src: ImageId::RtOutput, dst: ImageId::Swapchain },
            FrameCommand::ImageBarrier {
                image: ImageId::Swapchain,
                from: ImageLayout::TransferDst,
                to: ImageLayout::PresentSrc,
            },
            FrameCommand::ImageBarrier {
                image: ImageId::RtOutput,
                from: ImageLayout::TransferSrc,
                to: ImageLayout::General,
            },
        ]
    );
}

#[test]
fn frame_commands_uniform_update_guarded_by_barrier_pair() {
    let cmds = frame_commands(640, 480, true);
    assert_eq!(cmds[0], FrameCommand::UniformReadToWriteBarrier);
    assert_eq!(cmds[1], FrameCommand::UpdateUniforms);
    assert_eq!(cmds[2], FrameCommand::UniformWriteToReadBarrier);
    assert_eq!(cmds[3], FrameCommand::BindPipeline);
    assert_eq!(cmds.len(), 11);
}

#[test]
fn frame_commands_replay_restores_layouts() {
    for &update in &[false, true] {
        let cmds = frame_commands(1920, 1080, update);
        let out = check_layout_transitions(&cmds, initial_layouts()).unwrap();
        assert_eq!(out.swapchain, ImageLayout::PresentSrc);
        assert_eq!(out.rt_output, ImageLayout::General);
    }
}

#[test]
fn missing_transfer_src_barrier_is_detected() {
    // Drop the barrier that moves the offscreen image into the transfer
    // source layout: the copy becomes invalid and the replay reports it.
    let cmds: Vec<FrameCommand> = frame_commands(1920, 1080, false)
        .into_iter()
        .filter(|c| {
            *c != FrameCommand::ImageBarrier {
                image: ImageId::RtOutput,
                from: ImageLayout::General,
                to: ImageLayout::TransferSrc,
            }
        })
        .collect();
    assert_eq!(check_layout_transitions(&cmds, initial_layouts()), None);
}

#[test]
fn begin_frame_throttles_on_acquire_fence() {
    let mut fl = FrameLoop::new(1920, 1080);
    let actions = fl.begin_frame();
    assert_eq!(
        actions,
        vec![
            FrameAction::WaitFence { fence: FenceId::SwapchainAcquire },
            FrameAction::ResetFence { fence: FenceId::SwapchainAcquire },
            FrameAction::AcquireImage {
                signal_semaphore: SemaphoreId::PresentComplete,
                signal_fence: FenceId::SwapchainAcquire,
            },
        ]
    );
}

#[test]
fn submit_actions_wait_draw_fence_before_reset() {
    let mut fl = FrameLoop::new(1920, 1080);
    fl.begin_frame();
    let actions = fl.record_and_submit(true);
    let wait = actions
        .iter()
        .position(|a| *a == FrameAction::WaitFence { fence: FenceId::DrawReuse })
        .unwrap();
    let reset = actions
        .iter()
        .position(|a| *a == FrameAction::ResetCommandBuffer)
        .unwrap();
    assert!(wait < reset);
    // nothing submits between the wait and the reset
    assert!(actions[wait..reset]
        .iter()
        .all(|a| !matches!(a, FrameAction::Submit { .. })));
    // the submit signals the draw-reuse fence that throttles the next frame
    assert_eq!(
        actions.last().unwrap(),
        &FrameAction::Submit {
            wait_semaphore: SemaphoreId::PresentComplete,
            signal_semaphore: SemaphoreId::RenderComplete,
            signal_fence: FenceId::DrawReuse,
        }
    );
}

#[test]
fn submit_actions_record_the_frame_commands() {
    let mut fl = FrameLoop::new(800, 600);
    fl.begin_frame();
    let actions = fl.record_and_submit(false);
    let recorded: Vec<FrameCommand> = actions
        .iter()
        .filter_map(|a| match a {
            FrameAction::Record { command } => Some(*command),
            _ => None,
        })
        .collect();
    assert_eq!(recorded, frame_commands(800, 600, false));
    assert_eq!(actions[3], FrameAction::BeginCommandBuffer);
    assert_eq!(actions[actions.len() - 2], FrameAction::EndCommandBuffer);
}

#[test]
fn present_waits_on_render_complete() {
    let mut fl = FrameLoop::new(800, 600);
    fl.begin_frame();
    fl.record_and_submit(false);
    let actions = fl.present_frame();
    assert_eq!(
        actions,
        vec![FrameAction::Present { wait_semaphore: SemaphoreId::RenderComplete }]
    );
}

#[test]
fn out_of_date_present_triggers_resize_not_failure() {
    let mut fl = FrameLoop::new(800, 600);
    fl.begin_frame();
    fl.record_and_submit(false);
    fl.present_frame();
    fl.complete_present(true);
    assert!(fl.needs_resize());
    let steps = fl.apply_resize(1024, 768);
    assert_eq!(steps, recreate_steps(1024, 768));
    assert!(!fl.needs_resize());
    assert_eq!(fl.current_extent(), Extent { width: 1024, height: 768 });
}

#[test]
fn resize_twice_same_resolution_indistinguishable() {
    let mut once = FrameLoop::new(800, 600);
    once.request_resize();
    once.apply_resize(1024, 768);

    let mut twice = FrameLoop::new(800, 600);
    twice.request_resize();
    twice.apply_resize(1024, 768);
    twice.apply_resize(1024, 768);

    assert_eq!(once.current_extent(), twice.current_extent());
    assert_eq!(once.needs_resize(), twice.needs_resize());

    // both render frames at the same resolution afterwards
    for fl in [&mut once, &mut twice] {
        fl.begin_frame();
        let actions = fl.record_and_submit(false);
        assert!(actions.contains(&FrameAction::Record {
            command: FrameCommand::TraceRays { width: 1024, height: 768 },
        }));
        fl.present_frame();
        fl.complete_present(false);
    }
}

#[test]
fn thousand_frames_steady_state() {
    let mut fl = FrameLoop::new(1920, 1080);
    for frame in 0..1000u32 {
        fl.begin_frame();
        let actions = fl.record_and_submit(frame % 2 == 0);
        // every frame's recording is gated by the draw-reuse fence wait
        assert_eq!(actions[0], FrameAction::WaitFence { fence: FenceId::DrawReuse });
        fl.present_frame();
        fl.complete_present(false);
        assert!(!fl.needs_resize());
    }
}

#[test]
fn recreate_steps_waits_idle_then_tears_down_in_order() {
    let steps = recreate_steps(640, 480);
    assert_eq!(steps[0], ResizeStep::WaitDeviceIdle);
    let create_swapchain = steps
        .iter()
        .position(|s| matches!(s, ResizeStep::CreateSwapchain { .. }))
        .unwrap();
    // every destroy of a resolution-dependent resource precedes the new
    // swapchain's creation, except the old swapchain handed to it
    for (i, s) in steps.iter().enumerate() {
        match s {
            ResizeStep::DestroyRtImageView
            | ResizeStep::DestroyRtImage
            | ResizeStep::FreeRtImageMemory
            | ResizeStep::DestroyFramebuffers
            | ResizeStep::DestroyRenderPass
            | ResizeStep::DestroyPresentImageViews
            | ResizeStep::DestroyDepthImage
            | ResizeStep::DestroyDepthImageView
            | ResizeStep::FreeDepthImageMemory => assert!(i < create_swapchain),
            ResizeStep::DestroyOldSwapchain => assert!(i > create_swapchain),
            _ => {}
        }
    }
    assert_eq!(
        steps[create_swapchain],
        ResizeStep::CreateSwapchain { width: 640, height: 480 }
    );
    assert!(steps.contains(&ResizeStep::CreateRtImage { width: 640, height: 480 }));
    assert_eq!(*steps.last().unwrap(), ResizeStep::RewriteRtImageDescriptor);
}
