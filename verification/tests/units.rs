//! The parts of the library, one at a time.

use present_loop::chain::{window_size_dependent_setup, Framebuffer, ImageChain, Viewport};
use present_loop::device::{
    first_usable_family, rank, select_device, DeviceKind, DeviceProfile, QueueFamily, Selection,
};
use present_loop::engine::PresentationLoop;
use present_loop::protocol::{
    exit_code, summarize, AcquireOutcome, Command, Event, EventSummary, Exit, Fatal, Phase,
    PresentOutcome, RecordOutcome, RecreateOutcome, SubmitOutcome, WindowEvent,
};
use present_loop::extent::Extent;
use present_loop::recorder::{record, DrawInputs, RenderStep};
use present_loop::surface::{ChainConfig, ChainError, CompositeMode, ImageUsage, SurfaceCaps};
use present_loop::tracker::{FrameTracker, Token, TokenState};

fn surface(min_image_count: u32) -> SurfaceCaps {
    SurfaceCaps {
        min_image_count,
        min_extent: Extent::new(16, 16),
        max_extent: Extent::new(2048, 1024),
        formats: vec![50, 44],
        composite_modes: vec![CompositeMode::PreMultiplied, CompositeMode::Opaque],
    }
}

fn idle_loop() -> PresentationLoop {
    PresentationLoop::start(&surface(3), Extent::new(800, 600)).unwrap()
}

fn quiet() -> EventSummary {
    EventSummary { close_requested: false, resized: false }
}

#[test]
fn extent_is_empty_when_either_dimension_is_zero() {
    assert!(Extent::new(0, 600).is_empty());
    assert!(Extent::new(800, 0).is_empty());
    assert!(Extent::new(0, 0).is_empty());
    assert!(!Extent::new(1, 1).is_empty());
}

#[test]
fn extent_bounds_are_inclusive() {
    let min = Extent::new(16, 16);
    let max = Extent::new(2048, 1024);
    assert!(Extent::new(16, 16).is_within(&min, &max));
    assert!(Extent::new(2048, 1024).is_within(&min, &max));
    assert!(!Extent::new(15, 16).is_within(&min, &max));
    assert!(!Extent::new(16, 1025).is_within(&min, &max));
    assert_eq!(Extent::new(3, 4), Extent { width: 3, height: 4 });
    assert_ne!(Extent::new(3, 4), Extent::new(4, 3));
}

#[test]
fn config_takes_first_format_and_first_composite_mode() {
    let config = surface(3).choose_config(Extent::new(800, 600)).unwrap();
    assert_eq!(
        config,
        ChainConfig {
            image_count: 3,
            format: 50,
            extent: Extent::new(800, 600),
            composite: CompositeMode::PreMultiplied,
            usage: ImageUsage::ColorAttachment,
        }
    );
}

#[test]
fn image_count_is_never_below_two() {
    assert_eq!(surface(0).choose_config(Extent::new(64, 64)).unwrap().image_count, 2);
    assert_eq!(surface(1).choose_config(Extent::new(64, 64)).unwrap().image_count, 2);
    assert_eq!(surface(2).choose_config(Extent::new(64, 64)).unwrap().image_count, 2);
    assert_eq!(surface(5).choose_config(Extent::new(64, 64)).unwrap().image_count, 5);
}

#[test]
fn create_rejects_a_surface_without_formats() {
    let mut caps = surface(2);
    caps.formats.clear();
    assert_eq!(
        ImageChain::create(&caps, Extent::new(800, 600)),
        Err(ChainError::UnsupportedSurfaceConfiguration)
    );
    let mut caps = surface(2);
    caps.composite_modes.clear();
    assert_eq!(
        ImageChain::create(&caps, Extent::new(800, 600)),
        Err(ChainError::UnsupportedSurfaceConfiguration)
    );
}

#[test]
fn create_rejects_an_extent_out_of_bounds() {
    let caps = surface(2);
    for extent in [Extent::new(8, 600), Extent::new(800, 2000), Extent::new(4000, 600)] {
        assert_eq!(
            ImageChain::create(&caps, extent),
            Err(ChainError::UnsupportedSurfaceConfiguration)
        );
        assert!(PresentationLoop::start(&caps, extent).is_err());
    }
}

#[test]
fn created_chain_reports_the_extent_in_every_image() {
    let chain = ImageChain::create(&surface(3), Extent::new(800, 600)).unwrap();
    assert!(chain.is_well_formed());
    assert_eq!(chain.image_count(), 3);
    assert_eq!(chain.image_extents(), vec![Extent::new(800, 600); 3]);
    let (framebuffers, viewport) = chain.build_targets();
    assert_eq!(viewport, Viewport { width: 800, height: 600 });
    assert_eq!(
        framebuffers,
        vec![
            Framebuffer { image_index: 0, extent: Extent::new(800, 600) },
            Framebuffer { image_index: 1, extent: Extent::new(800, 600) },
            Framebuffer { image_index: 2, extent: Extent::new(800, 600) },
        ]
    );
}

#[test]
fn recreated_chain_keeps_everything_but_the_extent() {
    let chain = ImageChain::create(&surface(3), Extent::new(800, 600)).unwrap();
    let rebuilt = chain.recreate(&surface(4), Extent::new(400, 300)).unwrap();
    assert_eq!(rebuilt.image_extents(), vec![Extent::new(400, 300); 3]);
    assert_eq!(rebuilt.config.format, chain.config.format);
    assert_eq!(rebuilt.config.composite, chain.config.composite);
    assert_eq!(rebuilt.config.image_count, 3);
    assert_eq!(chain.image_extent(), Extent::new(800, 600));
}

#[test]
fn recreate_with_zero_area_is_unsupported_and_keeps_the_chain() {
    let chain = ImageChain::create(&surface(3), Extent::new(800, 600)).unwrap();
    let before = chain;
    let mut open_caps = surface(3);
    open_caps.min_extent = Extent::new(0, 0);
    for extent in [Extent::new(0, 0), Extent::new(0, 300), Extent::new(400, 0)] {
        assert_eq!(chain.recreate(&open_caps, extent), Err(ChainError::UnsupportedExtent));
        assert_eq!(chain.recreate(&surface(3), extent), Err(ChainError::UnsupportedExtent));
    }
    assert_eq!(chain.recreate(&surface(3), Extent::new(4000, 300)), Err(ChainError::UnsupportedExtent));
    assert_eq!(chain, before);
}

#[test]
fn framebuffer_lookup_is_bounded_by_the_image_count() {
    let chain = ImageChain::create(&surface(2), Extent::new(640, 480)).unwrap();
    assert_eq!(
        chain.framebuffer(1),
        Some(Framebuffer { image_index: 1, extent: Extent::new(640, 480) })
    );
    assert_eq!(chain.framebuffer(2), None);
}

#[test]
fn setup_binds_one_framebuffer_per_image_and_sets_the_viewport() {
    let images = vec![Extent::new(320, 200), Extent::new(320, 200)];
    let mut viewport = Viewport { width: 0, height: 0 };
    let framebuffers = window_size_dependent_setup(&images, &mut viewport);
    assert_eq!(viewport, Viewport { width: 320, height: 200 });
    assert_eq!(framebuffers.len(), 2);
    assert_eq!(framebuffers[0], Framebuffer { image_index: 0, extent: Extent::new(320, 200) });
    assert_eq!(framebuffers[1], Framebuffer { image_index: 1, extent: Extent::new(320, 200) });
}

#[test]
fn tracker_starts_with_a_completed_token() {
    let tracker = FrameTracker::new();
    assert!(tracker.is_tracking());
    assert_eq!(tracker.current(), Some(Token { id: 0, state: TokenState::Completed }));
    assert!(Token::completed().is_finished());
    assert!(!Token::submitted(4).is_finished());
}

#[test]
fn take_then_track_leaves_exactly_the_new_token() {
    let mut tracker = FrameTracker::new();
    let taken = tracker.take_outstanding();
    assert_eq!(taken, Token::completed());
    assert!(!tracker.is_tracking());
    assert_eq!(tracker.current(), None);
    tracker.track(Token::submitted(11));
    assert!(tracker.is_tracking());
    assert_eq!(tracker.current(), Some(Token::submitted(11)));
    tracker.track(Token::submitted(12));
    assert_eq!(tracker.current(), Some(Token::submitted(12)));
}

#[test]
fn retire_releases_once_and_then_does_nothing() {
    let mut tracker = FrameTracker::new();
    assert!(tracker.retire_completed());
    let after_first = tracker;
    assert_eq!(tracker.current(), Some(Token { id: 0, state: TokenState::Released }));
    assert!(!tracker.retire_completed());
    assert_eq!(tracker, after_first);
}

#[test]
fn retire_leaves_pending_work_alone_until_it_is_signalled() {
    let mut tracker = FrameTracker::new();
    tracker.take_outstanding();
    tracker.track(Token::submitted(5));
    assert!(!tracker.retire_completed());
    assert_eq!(tracker.current(), Some(Token::submitted(5)));
    tracker.signal(6);
    assert_eq!(tracker.current(), Some(Token::submitted(5)));
    tracker.signal(5);
    assert_eq!(tracker.current(), Some(Token { id: 5, state: TokenState::Completed }));
    assert!(tracker.retire_completed());
    assert!(!tracker.retire_completed());
    assert_eq!(tracker.current(), Some(Token { id: 5, state: TokenState::Released }));
}

#[test]
fn retire_with_nothing_outstanding_is_a_no_op() {
    let mut tracker = FrameTracker::new();
    tracker.take_outstanding();
    assert!(!tracker.retire_completed());
    assert_eq!(tracker.current(), None);
    tracker.signal(0);
    assert_eq!(tracker.current(), None);
}

#[test]
fn device_ranks_follow_the_preference() {
    assert_eq!(rank(DeviceKind::DiscreteGpu), 0);
    assert_eq!(rank(DeviceKind::IntegratedGpu), 1);
    assert_eq!(rank(DeviceKind::VirtualGpu), 2);
    assert_eq!(rank(DeviceKind::Cpu), 3);
    assert_eq!(rank(DeviceKind::Other), 4);
    assert_eq!(rank(DeviceKind::Unknown), 5);
}

fn family(graphics: bool, presents: bool) -> QueueFamily {
    QueueFamily { graphics, presents }
}

#[test]
fn first_family_that_draws_and_presents_is_found() {
    let families =
        vec![family(false, true), family(true, false), family(true, true), family(true, true)];
    assert_eq!(first_usable_family(&families), Some(2));
    assert_eq!(first_usable_family(&vec![family(true, false)]), None);
    assert_eq!(first_usable_family(&vec![]), None);
}

#[test]
fn best_device_is_the_first_of_the_lowest_rank() {
    let devices = vec![
        DeviceProfile {
            swapchain: true,
            kind: DeviceKind::Cpu,
            families: vec![family(true, true)],
        },
        DeviceProfile {
            swapchain: false,
            kind: DeviceKind::DiscreteGpu,
            families: vec![family(true, true)],
        },
        DeviceProfile {
            swapchain: true,
            kind: DeviceKind::DiscreteGpu,
            families: vec![family(true, false)],
        },
        DeviceProfile {
            swapchain: true,
            kind: DeviceKind::IntegratedGpu,
            families: vec![family(false, false), family(true, true)],
        },
        DeviceProfile {
            swapchain: true,
            kind: DeviceKind::IntegratedGpu,
            families: vec![family(true, true)],
        },
    ];
    assert_eq!(select_device(&devices), Some(Selection { device: 3, queue_family: 1 }));
    assert_eq!(select_device(&devices[..3].to_vec()), Some(Selection { device: 0, queue_family: 0 }));
    assert_eq!(select_device(&devices[1..3].to_vec()), None);
    assert_eq!(select_device(&vec![]), None);
}

#[test]
fn frame_is_one_render_pass_with_one_draw() {
    let framebuffer = Framebuffer { image_index: 1, extent: Extent::new(400, 300) };
    let unit = record(&framebuffer, 42, &DrawInputs { vertex_count: 3 });
    assert_eq!(unit.image_index, 1);
    assert_eq!(
        unit.steps,
        vec![
            RenderStep::BeginRenderPass { image_index: 1 },
            RenderStep::SetViewport { viewport: Viewport { width: 400, height: 300 } },
            RenderStep::BindPipeline { pipeline: 42 },
            RenderStep::Draw {
                vertex_count: 3,
                instance_count: 1,
                first_vertex: 0,
                first_instance: 0
            },
            RenderStep::EndRenderPass,
        ]
    );
}

#[test]
fn event_batch_is_reduced_to_close_and_resize() {
    assert_eq!(summarize(&vec![]), quiet());
    assert_eq!(
        summarize(&vec![WindowEvent::Resized, WindowEvent::Resized]),
        EventSummary { close_requested: false, resized: true }
    );
    assert_eq!(
        summarize(&vec![WindowEvent::Close]),
        EventSummary { close_requested: true, resized: false }
    );
    assert_eq!(
        summarize(&vec![WindowEvent::Resized, WindowEvent::Close]),
        EventSummary { close_requested: true, resized: true }
    );
}

#[test]
fn exit_codes_tell_close_from_failure() {
    assert_eq!(exit_code(Exit::Closed), 0);
    assert_eq!(exit_code(Exit::Failed(Fatal::Rebuild)), 1);
    assert_eq!(exit_code(Exit::Failed(Fatal::Acquisition)), 1);
    assert_eq!(exit_code(Exit::Failed(Fatal::Recording)), 1);
    assert_eq!(exit_code(Exit::Failed(Fatal::Submission)), 1);
    assert_eq!(exit_code(Exit::Failed(Fatal::Presentation)), 1);
}

#[test]
fn new_loop_is_idle_with_a_placeholder_token() {
    let engine = idle_loop();
    assert!(engine.is_well_formed());
    assert_eq!(engine.phase, Phase::Idle);
    assert!(!engine.recreate_pending);
    assert_eq!(engine.tracker.current(), Some(Token::completed()));
    assert_eq!(engine.chain.image_count(), 3);
    assert_eq!(engine, PresentationLoop::with_chain(engine.chain));
}

#[test]
fn tick_with_pending_rebuild_asks_for_recreate_not_acquire() {
    let mut engine = idle_loop();
    let command = engine
        .step(Event::Tick { summary: EventSummary { close_requested: false, resized: true }, extent: Extent::new(640, 480) });
    assert_eq!(command, Command::Recreate { extent: Extent::new(640, 480) });
    assert_eq!(engine.phase, Phase::Reconciling);
    let rebuilt = engine.chain.recreate(&surface(3), Extent::new(640, 480)).unwrap();
    assert_eq!(engine.step(Event::Recreated(RecreateOutcome::Rebuilt(rebuilt))), Command::Acquire);
    assert_eq!(engine.chain, rebuilt);
    assert!(!engine.recreate_pending);
}

#[test]
fn rebuilt_chain_of_another_extent_is_fatal() {
    let mut engine = idle_loop();
    engine.on_tick(EventSummary { close_requested: false, resized: true }, Extent::new(640, 480));
    let wrong = engine.chain.recreate(&surface(3), Extent::new(641, 480)).unwrap();
    let before = engine.chain;
    assert_eq!(engine.on_recreated(RecreateOutcome::Rebuilt(wrong)), Command::Exit { code: 1 });
    assert_eq!(engine.exit_status(), Some(Exit::Failed(Fatal::Rebuild)));
    assert_eq!(engine.chain, before);
}

#[test]
fn failed_rebuild_is_fatal() {
    let mut engine = idle_loop();
    engine.on_tick(EventSummary { close_requested: false, resized: true }, Extent::new(640, 480));
    assert_eq!(engine.on_recreated(RecreateOutcome::Failed), Command::Exit { code: 1 });
    assert_eq!(engine.exit_status(), Some(Exit::Failed(Fatal::Rebuild)));
}

#[test]
fn suboptimal_image_marks_the_chain_but_the_tick_goes_on() {
    let mut engine = idle_loop();
    assert_eq!(engine.on_tick(quiet(), Extent::new(800, 600)), Command::Acquire);
    let command = engine.on_acquired(AcquireOutcome::Image { index: 2, suboptimal: true });
    assert_eq!(
        command,
        Command::Record {
            framebuffer: Framebuffer { image_index: 2, extent: Extent::new(800, 600) }
        }
    );
    assert!(engine.recreate_pending);
    assert_eq!(engine.phase, Phase::Recording);
    assert_eq!(
        engine.on_recorded(RecordOutcome::Recorded),
        Command::Submit { image_index: 2, wait_on: Token { id: 0, state: TokenState::Released } }
    );
    let token = Token::submitted(1);
    assert_eq!(
        engine.on_submitted(SubmitOutcome::Submitted(token)),
        Command::Present { image_index: 2, wait_on: token }
    );
    assert_eq!(engine.on_presented(PresentOutcome::Presented), Command::AwaitTick);
    assert_eq!(engine.tracker.current(), Some(token));
    assert_eq!(
        engine.on_tick(quiet(), Extent::new(800, 600)),
        Command::Recreate { extent: Extent::new(800, 600) }
    );
}

#[test]
fn image_index_beyond_the_chain_is_fatal() {
    let mut engine = idle_loop();
    engine.on_tick(quiet(), Extent::new(800, 600));
    assert_eq!(
        engine.on_acquired(AcquireOutcome::Image { index: 3, suboptimal: false }),
        Command::Exit { code: 1 }
    );
    assert_eq!(engine.exit_status(), Some(Exit::Failed(Fatal::Acquisition)));
}

#[test]
fn failed_acquire_and_failed_recording_are_fatal() {
    let mut engine = idle_loop();
    engine.on_tick(quiet(), Extent::new(800, 600));
    assert_eq!(engine.on_acquired(AcquireOutcome::Failed), Command::Exit { code: 1 });
    assert_eq!(engine.exit_status(), Some(Exit::Failed(Fatal::Acquisition)));
    let mut engine = idle_loop();
    engine.on_tick(quiet(), Extent::new(800, 600));
    engine.on_acquired(AcquireOutcome::Image { index: 0, suboptimal: false });
    assert_eq!(engine.on_recorded(RecordOutcome::Failed), Command::Exit { code: 1 });
    assert_eq!(engine.exit_status(), Some(Exit::Failed(Fatal::Recording)));
    assert!(engine.tracker.is_tracking());
}

#[test]
fn out_of_date_submit_installs_a_placeholder() {
    let mut engine = idle_loop();
    engine.on_tick(quiet(), Extent::new(800, 600));
    engine.on_acquired(AcquireOutcome::Image { index: 0, suboptimal: false });
    engine.on_recorded(RecordOutcome::Recorded);
    assert!(!engine.tracker.is_tracking());
    assert_eq!(engine.on_submitted(SubmitOutcome::OutOfDate), Command::AwaitTick);
    assert_eq!(engine.tracker.current(), Some(Token::completed()));
    assert!(engine.recreate_pending);
    assert_eq!(engine.exit_status(), None);
    let mut engine = idle_loop();
    engine.on_tick(quiet(), Extent::new(800, 600));
    engine.on_acquired(AcquireOutcome::Image { index: 0, suboptimal: false });
    engine.on_recorded(RecordOutcome::Recorded);
    assert_eq!(engine.on_submitted(SubmitOutcome::Failed), Command::Exit { code: 1 });
    assert_eq!(engine.exit_status(), Some(Exit::Failed(Fatal::Submission)));
}

#[test]
fn event_of_another_phase_is_ignored() {
    let mut engine = idle_loop();
    let before = engine;
    assert_eq!(engine.step(Event::Acquired(AcquireOutcome::Stale)), Command::Ignored);
    assert_eq!(engine.step(Event::Presented(PresentOutcome::Failed)), Command::Ignored);
    assert_eq!(engine.step(Event::Recorded(RecordOutcome::Recorded)), Command::Ignored);
    assert_eq!(engine.step(Event::Submitted(SubmitOutcome::OutOfDate)), Command::Ignored);
    assert_eq!(engine.step(Event::Recreated(RecreateOutcome::Failed)), Command::Ignored);
    assert_eq!(engine, before);
    engine.on_tick(quiet(), Extent::new(800, 600));
    let acquiring = engine;
    assert_eq!(engine.on_tick(quiet(), Extent::new(10, 10)), Command::Ignored);
    assert_eq!(engine, acquiring);
}

#[test]
fn signal_reaches_the_outstanding_token() {
    let mut engine = idle_loop();
    engine.on_tick(quiet(), Extent::new(800, 600));
    engine.on_acquired(AcquireOutcome::Image { index: 0, suboptimal: false });
    engine.on_recorded(RecordOutcome::Recorded);
    engine.on_submitted(SubmitOutcome::Submitted(Token::submitted(77)));
    engine.on_presented(PresentOutcome::Presented);
    engine.on_signalled(78);
    assert_eq!(engine.tracker.current(), Some(Token::submitted(77)));
    engine.on_signalled(77);
    assert_eq!(engine.tracker.current(), Some(Token { id: 77, state: TokenState::Completed }));
    assert!(engine.is_well_formed());
}
