use mat_engine::application::inform_application;
use mat_engine::application::Application;
use mat_engine::application::ApplicationEventReceiver;
use mat_engine::assets::calculate_engine_assets_path;
use mat_engine::assets::calculate_top_path;
use mat_engine::assets::get_folder_assets_path;
use mat_engine::chrono::delta_time_nanos;
use mat_engine::chrono::ChronoSystem;
use mat_engine::context::EngineContext;
use mat_engine::event::inform_receiver;
use mat_engine::event::Event;
use mat_engine::event::EventType;
use mat_engine::event::WindowResizeEvent;
use mat_engine::handle_loop_event;
use mat_engine::is_drain_ready;
use mat_engine::is_loop_event_ready;
use mat_engine::imgui::add_render_fn;
use mat_engine::imgui::render;
use mat_engine::imgui::ImguiSystem;
use mat_engine::input::button::ButtonId;
use mat_engine::input::cursor::get_cursor_info;
use mat_engine::input::cursor::get_cursor_position;
use mat_engine::input::cursor::is_cursor_inside_screen;
use mat_engine::input::cursor::CursorPosition;
use mat_engine::input::cursor::CursorState;
use mat_engine::input::is_button_down;
use mat_engine::input::is_button_pressed;
use mat_engine::input::InputSystem;
use mat_engine::process_engine_events;
use mat_engine::rendering::complete_render;
use mat_engine::rendering::frame::FrameRenderTarget;
use mat_engine::rendering::frame::FrameState;
use mat_engine::rendering::frame::RenderMisuse;
use mat_engine::rendering::start_render;
use mat_engine::rendering::wgpu_pipeline::TextureFormat;
use mat_engine::rendering::wgpu_state::GpuAcquisition;
use mat_engine::rendering::wgpu_state::InitError;
use mat_engine::rendering::GpuBackend;
use mat_engine::rendering::RenderingSystem;
use mat_engine::rendering::StartRenderError;
use mat_engine::rendering::SurfaceError;
use mat_engine::utils::unwrap_mut;
use mat_engine::utils::unwrap_ref;
use mat_engine::windowing::force_quit;
use mat_engine::windowing::queue_quit;
use mat_engine::windowing::ControlFlow;
use mat_engine::windowing::ElementState;
use mat_engine::windowing::KeyboardInput;
use mat_engine::windowing::LoopEvent;
use mat_engine::windowing::PhysicalSize;
use mat_engine::windowing::Request;
use mat_engine::windowing::VirtualKeyCode;
use mat_engine::windowing::WindowEvent;
use mat_engine::windowing::WindowingSystem;

struct Fake;

impl GpuBackend for Fake {
    type Gpu = ();
    type Texture = String;
    type BindGroup = u32;
    type BindGroupLayout = u32;
    type RenderPipeline = u64;
    type Buffer = Vec<u8>;
    type TextureView = u8;
    type SurfaceFrame = u16;
    type CommandEncoder = Vec<u32>;
    type RenderFn = &'static str;
}

/// An application that writes down what it is called with.
struct Recorder {
    log: Vec<String>,
}

impl ApplicationEventReceiver<Fake> for Recorder {
    fn receives_event_type(_evt_type: EventType) -> bool {
        true
    }

    fn receive_event(&mut self, ctx: &mut EngineContext<Fake>, evt: Event) {
        let size = ctx.rendering_system.as_ref().unwrap().state().window_inner_size();
        self.log.push(format!(
            "{:?} queue={} frame={} size={}x{}",
            evt,
            ctx.event_queue.len(),
            ctx.input_system.as_ref().unwrap().frame_count(),
            size.width,
            size.height
        ));
    }
}

impl Application<Fake> for Recorder {
    fn new(_ctx: &mut EngineContext<Fake>) -> Self {
        Recorder { log: Vec::new() }
    }

    fn close(&mut self, _ctx: &mut EngineContext<Fake>) {
        self.log.push("close".to_string());
    }

    fn update(&mut self, ctx: &mut EngineContext<Fake>) {
        self.log.push(format!("update queue={}", ctx.event_queue.len()));
    }

    fn render(&mut self, ctx: &mut EngineContext<Fake>) {
        self.log.push(format!("render queue={}", ctx.event_queue.len()));
    }
}

/// An application that is told of nothing.
struct Deaf {
    received: u32,
}

impl ApplicationEventReceiver<Fake> for Deaf {
    fn receives_event_type(_evt_type: EventType) -> bool {
        false
    }

    fn receive_event(&mut self, _ctx: &mut EngineContext<Fake>, _evt: Event) {
        self.received += 1;
    }
}

impl Application<Fake> for Deaf {
    fn new(_ctx: &mut EngineContext<Fake>) -> Self {
        Deaf { received: 0 }
    }

    fn close(&mut self, _ctx: &mut EngineContext<Fake>) {}

    fn update(&mut self, _ctx: &mut EngineContext<Fake>) {}

    fn render(&mut self, _ctx: &mut EngineContext<Fake>) {}
}

fn size(width: u32, height: u32) -> PhysicalSize {
    PhysicalSize { width, height }
}

fn context() -> EngineContext<Fake> {
    let mut ctx = EngineContext::uninit();
    ctx.chrono_init();
    ctx.input_init();
    ctx.windowing_init(size(800, 600));
    let initialized = ctx.rendering_init(GpuAcquisition::Acquired {
        gpu: (),
        preferred_format: Some(TextureFormat::Bgra8UnormSrgb),
    });
    assert_eq!(initialized, Ok(()));
    ctx
}

fn frame_count(ctx: &EngineContext<Fake>) -> u64 {
    ctx.input_system.as_ref().unwrap().frame_count()
}

fn window_size(ctx: &EngineContext<Fake>) -> PhysicalSize {
    ctx.rendering_system.as_ref().unwrap().state().window_inner_size()
}

#[test]
fn context_starts_without_systems() {
    let mut ctx: EngineContext<Fake> = EngineContext::uninit();
    assert!(ctx.chrono_system.is_none());
    assert!(ctx.windowing_system.is_none());
    assert!(ctx.rendering_system.is_none());
    assert!(ctx.imgui_system.is_none());
    assert!(ctx.input_system.is_none());
    assert!(ctx.event_queue.is_empty());
    ctx.windowing_init(size(0, 600));
    assert_eq!(
        ctx.rendering_init(GpuAcquisition::Acquired {
            gpu: (),
            preferred_format: Some(TextureFormat::Bgra8UnormSrgb),
        }),
        Err(InitError::ZeroSizedWindow)
    );
    assert!(ctx.rendering_system.is_none());
    assert_eq!(ctx.rendering_init(GpuAcquisition::NoDevice), Err(InitError::DeviceNotGranted));
    ctx.windowing_init(size(10, 20));
    assert_eq!(
        ctx.rendering_init(GpuAcquisition::Acquired {
            gpu: (),
            preferred_format: Some(TextureFormat::Bgra8UnormSrgb),
        }),
        Ok(())
    );
    assert_eq!(window_size(&ctx), size(10, 20));
    ctx.imgui_init();
    assert!(ctx.imgui_system.is_some());
}

#[test]
fn full_frame_cycle_leaves_the_queue_empty_at_every_drain() {
    let mut ctx = context();
    let mut app = Recorder::new(&mut ctx);

    assert_eq!(handle_loop_event(&mut ctx, &mut app, &LoopEvent::NewEvents), ControlFlow::Poll);
    assert!(ctx.event_queue.is_empty());
    assert_eq!(frame_count(&ctx), 1);
    assert_eq!(ctx.chrono_system.as_ref().unwrap().frame_number(), 1);

    assert_eq!(handle_loop_event(&mut ctx, &mut app, &LoopEvent::MainEventsCleared), ControlFlow::Poll);
    assert!(ctx.event_queue.is_empty());
    assert!(ctx.windowing_system.as_mut().unwrap().take_redraw_request());

    assert_eq!(handle_loop_event(&mut ctx, &mut app, &LoopEvent::RedrawRequested), ControlFlow::Poll);
    assert!(ctx.event_queue.is_empty());
    assert_eq!(
        handle_loop_event(&mut ctx, &mut app, &LoopEvent::RedrawEventsCleared),
        ControlFlow::Poll
    );

    assert_eq!(
        app.log,
        vec![
            "Start queue=0 frame=1 size=800x600",
            "PreUpdateEvent queue=0 frame=1 size=800x600",
            "update queue=0",
            "PostUpdateEvent queue=0 frame=1 size=800x600",
            "PreRenderEvent queue=0 frame=1 size=800x600",
            "render queue=0",
            "PostRenderEvent queue=0 frame=1 size=800x600",
        ]
    );

    // The next frame starts with an empty queue again.
    assert_eq!(handle_loop_event(&mut ctx, &mut app, &LoopEvent::NewEvents), ControlFlow::Poll);
    assert_eq!(frame_count(&ctx), 2);
    assert_eq!(ctx.chrono_system.as_ref().unwrap().frame_number(), 2);
    assert!(ctx.event_queue.is_empty());
}

#[test]
fn resizes_are_queued_and_seen_in_order_on_the_next_drain() {
    let mut ctx = context();
    let mut app = Recorder::new(&mut ctx);
    handle_loop_event(&mut ctx, &mut app, &LoopEvent::NewEvents);
    app.log.clear();

    let resized = LoopEvent::WindowEvent(WindowEvent::Resized(size(1024, 768)));
    assert_eq!(handle_loop_event(&mut ctx, &mut app, &resized), ControlFlow::Poll);
    let zero = LoopEvent::WindowEvent(WindowEvent::Resized(size(0, 768)));
    handle_loop_event(&mut ctx, &mut app, &zero);
    let scaled =
        LoopEvent::WindowEvent(WindowEvent::ScaleFactorChanged { new_inner_size: size(512, 384) });
    handle_loop_event(&mut ctx, &mut app, &scaled);
    // The windowing system knows the size of the window at once.
    assert_eq!(ctx.windowing_system.as_ref().unwrap().get_inner_size(), size(512, 384));
    // The surface is not resized before the queue is drained.
    assert_eq!(ctx.event_queue.len(), 3);
    assert_eq!(window_size(&ctx), size(800, 600));
    assert!(app.log.is_empty());

    handle_loop_event(&mut ctx, &mut app, &LoopEvent::MainEventsCleared);
    assert!(ctx.event_queue.is_empty());
    assert_eq!(window_size(&ctx), size(512, 384));
    // The events behind the one that is delivered are still in the queue,
    // the pre-update event last.
    assert_eq!(
        app.log,
        vec![
            "WindowResizeEvent(WindowResizeEvent { new_size: PhysicalSize { width: 1024, height: 768 } }) queue=3 frame=1 size=1024x768",
            "WindowResizeEvent(WindowResizeEvent { new_size: PhysicalSize { width: 0, height: 768 } }) queue=2 frame=1 size=1024x768",
            "WindowResizeEvent(WindowResizeEvent { new_size: PhysicalSize { width: 512, height: 384 } }) queue=1 frame=1 size=512x384",
            "PreUpdateEvent queue=0 frame=1 size=512x384",
            "update queue=0",
            "PostUpdateEvent queue=0 frame=1 size=512x384",
        ]
    );
    let cfg = ctx.rendering_system.as_mut().unwrap().state_mut().take_surface_configuration().unwrap();
    assert_eq!((cfg.width, cfg.height), (512, 384));
}

#[test]
fn zero_sized_resize_alone_never_reaches_the_surface() {
    let mut ctx = context();
    let mut app = Deaf::new(&mut ctx);
    assert!(ctx.rendering_system.as_mut().unwrap().state_mut().take_surface_configuration().is_some());
    handle_loop_event(&mut ctx, &mut app, &LoopEvent::NewEvents);
    handle_loop_event(&mut ctx, &mut app, &LoopEvent::WindowEvent(WindowEvent::Resized(size(0, 0))));
    handle_loop_event(&mut ctx, &mut app, &LoopEvent::WindowEvent(WindowEvent::Resized(size(5, 0))));
    handle_loop_event(&mut ctx, &mut app, &LoopEvent::MainEventsCleared);
    handle_loop_event(&mut ctx, &mut app, &LoopEvent::RedrawRequested);
    assert_eq!(window_size(&ctx), size(800, 600));
    assert_eq!(
        ctx.rendering_system.as_mut().unwrap().state_mut().take_surface_configuration(),
        None
    );
    assert_eq!(app.received, 0);
}

#[test]
fn drain_takes_exactly_the_events_that_were_queued() {
    let mut ctx = context();
    let mut app = Recorder::new(&mut ctx);
    assert_eq!(process_engine_events(&mut ctx, &mut app), 0);
    ctx.event_queue.push_event(Event::Start);
    ctx.event_queue.push_event(Event::WindowResizeEvent(WindowResizeEvent { new_size: size(3, 4) }));
    ctx.event_queue.push_event(Event::Start);
    ctx.event_queue.push_event(Event::PostRenderEvent);
    assert_eq!(process_engine_events(&mut ctx, &mut app), 4);
    assert!(ctx.event_queue.is_empty());
    assert_eq!(frame_count(&ctx), 2);
    assert_eq!(window_size(&ctx), size(3, 4));
    assert_eq!(app.log.len(), 4);
    assert_eq!(process_engine_events(&mut ctx, &mut app), 0);
    assert_eq!(app.log.len(), 4);
}

#[test]
fn receivers_are_told_only_of_what_they_receive() {
    let mut ctx = context();
    let resize = Event::WindowResizeEvent(WindowResizeEvent { new_size: size(30, 40) });
    inform_receiver::<Fake, InputSystem>(&mut ctx, resize);
    assert_eq!(frame_count(&ctx), 0);
    assert_eq!(window_size(&ctx), size(800, 600));
    inform_receiver::<Fake, RenderingSystem<Fake>>(&mut ctx, Event::Start);
    assert_eq!(frame_count(&ctx), 0);
    inform_receiver::<Fake, RenderingSystem<Fake>>(&mut ctx, resize);
    assert_eq!(window_size(&ctx), size(30, 40));
    inform_receiver::<Fake, InputSystem>(&mut ctx, Event::Start);
    assert_eq!(frame_count(&ctx), 1);

    let mut deaf = Deaf::new(&mut ctx);
    inform_application(&mut deaf, &mut ctx, Event::Start);
    assert_eq!(deaf.received, 0);
    let mut recorder = Recorder::new(&mut ctx);
    inform_application(&mut recorder, &mut ctx, Event::PreRenderEvent);
    assert_eq!(recorder.log, vec!["PreRenderEvent queue=0 frame=1 size=30x40"]);
}

#[test]
fn quit_request_and_close_request_end_the_loop() {
    let mut ctx = context();
    let mut app = Recorder::new(&mut ctx);
    queue_quit(&mut ctx);
    assert_eq!(ctx.windowing_system.as_mut().unwrap().take_requests(), vec![Request::Quit]);
    assert!(ctx.windowing_system.as_mut().unwrap().take_requests().is_empty());
    assert_eq!(
        handle_loop_event(&mut ctx, &mut app, &LoopEvent::UserEvent(Request::Quit)),
        ControlFlow::Exit
    );
    assert_eq!(
        handle_loop_event(&mut ctx, &mut app, &LoopEvent::WindowEvent(WindowEvent::CloseRequested)),
        ControlFlow::Exit
    );
    // The outstanding events are still handled.
    assert_eq!(handle_loop_event(&mut ctx, &mut app, &LoopEvent::NewEvents), ControlFlow::Poll);
    assert_eq!(frame_count(&ctx), 1);
    assert_eq!(handle_loop_event(&mut ctx, &mut app, &LoopEvent::LoopDestroyed), ControlFlow::Poll);
    assert_eq!(app.log.last().map(|s| s.as_str()), Some("close"));
}

#[test]
fn forced_quit_ignores_every_outstanding_event() {
    let mut ctx = context();
    let mut app = Recorder::new(&mut ctx);
    handle_loop_event(&mut ctx, &mut app, &LoopEvent::NewEvents);
    app.log.clear();
    force_quit(&mut ctx);
    assert!(ctx.windowing_system.as_ref().unwrap().is_force_quit());
    let events = vec![
        LoopEvent::NewEvents,
        LoopEvent::WindowEvent(WindowEvent::Resized(size(1, 1))),
        LoopEvent::WindowEvent(WindowEvent::CursorEntered),
        LoopEvent::DeviceEvent,
        LoopEvent::MainEventsCleared,
        LoopEvent::RedrawRequested,
        LoopEvent::RedrawEventsCleared,
        LoopEvent::UserEvent(Request::Quit),
        LoopEvent::Other,
    ];
    for event in &events {
        assert_eq!(handle_loop_event(&mut ctx, &mut app, event), ControlFlow::Exit);
    }
    assert!(app.log.is_empty());
    assert!(ctx.event_queue.is_empty());
    assert_eq!(frame_count(&ctx), 1);
    assert_eq!(get_cursor_info(&ctx), (CursorState::Unknown, None));
    assert!(!ctx.windowing_system.as_mut().unwrap().take_redraw_request());
    assert_eq!(handle_loop_event(&mut ctx, &mut app, &LoopEvent::LoopDestroyed), ControlFlow::Poll);
    assert_eq!(app.log, vec!["close"]);
}

#[test]
fn input_events_reach_the_input_system_and_are_read_in_the_update() {
    let mut ctx = context();
    let mut app = Deaf::new(&mut ctx);
    let q = ButtonId::key(VirtualKeyCode::Q);
    let press = LoopEvent::WindowEvent(WindowEvent::KeyboardInput {
        input: KeyboardInput {
            scancode: 16,
            state: ElementState::Pressed,
            virtual_keycode: Some(VirtualKeyCode::Q),
        },
        is_synthetic: false,
    });
    handle_loop_event(&mut ctx, &mut app, &LoopEvent::NewEvents);
    assert!(!is_button_down(&mut ctx, &q));
    handle_loop_event(&mut ctx, &mut app, &press);
    handle_loop_event(&mut ctx, &mut app, &LoopEvent::MainEventsCleared);
    assert!(is_button_down(&mut ctx, &q));
    assert!(is_button_pressed(&mut ctx, &q));
    handle_loop_event(&mut ctx, &mut app, &LoopEvent::RedrawRequested);

    // Held in the next frame: down, but not pressed in this frame.
    handle_loop_event(&mut ctx, &mut app, &LoopEvent::NewEvents);
    handle_loop_event(&mut ctx, &mut app, &press);
    assert!(is_button_down(&mut ctx, &q));
    assert!(!is_button_pressed(&mut ctx, &q));
    assert!(!is_button_down(&mut ctx, &ButtonId::key(VirtualKeyCode::E)));
    assert!(!is_button_pressed(&mut ctx, &ButtonId::mouse_left()));

    assert!(!is_cursor_inside_screen(&ctx));
    assert_eq!(get_cursor_position(&ctx), None);
    let moved = LoopEvent::WindowEvent(WindowEvent::CursorMoved {
        x_bits: 1.5f64.to_bits(),
        y_bits: 2.5f64.to_bits(),
    });
    handle_loop_event(&mut ctx, &mut app, &moved);
    handle_loop_event(&mut ctx, &mut app, &LoopEvent::WindowEvent(WindowEvent::CursorEntered));
    assert!(is_cursor_inside_screen(&ctx));
    let position = CursorPosition { x_bits: 1.5f64.to_bits(), y_bits: 2.5f64.to_bits() };
    assert_eq!(get_cursor_position(&ctx), Some(position));
    assert_eq!(get_cursor_info(&ctx), (CursorState::InsideScreen, Some(position)));
    for ignored in [WindowEvent::ThemeChanged, WindowEvent::Moved, WindowEvent::Destroyed] {
        handle_loop_event(&mut ctx, &mut app, &LoopEvent::WindowEvent(ignored));
    }
    handle_loop_event(&mut ctx, &mut app, &LoopEvent::DeviceEvent);
    assert_eq!(get_cursor_position(&ctx), Some(position));
    assert!(ctx.event_queue.is_empty());
}

#[test]
fn frame_is_started_and_completed_through_the_context() {
    let mut ctx = context();
    assert_eq!(complete_render(&mut ctx).err(), Some(RenderMisuse::NoFrame));
    let frt = FrameRenderTarget { view: 0, frame: 5, encoder: vec![] };
    assert!(start_render(&mut ctx, Ok(frt)).is_ok());
    assert_eq!(ctx.rendering_system.as_ref().unwrap().current_frame_state(), FrameState::Owned);
    assert_eq!(
        start_render(&mut ctx, Err(SurfaceError::Timeout)).err(),
        Some(StartRenderError::Misuse(RenderMisuse::FrameInFlight))
    );
    assert_eq!(complete_render(&mut ctx).ok().map(|frt| frt.frame), Some(5));
    assert_eq!(complete_render(&mut ctx).err(), Some(RenderMisuse::NoFrame));
    assert_eq!(start_render(&mut ctx, Err(SurfaceError::Lost)).err(), Some(StartRenderError::Retry));
    assert_eq!(
        start_render(&mut ctx, Err(SurfaceError::Lost)).err(),
        Some(StartRenderError::Surface(SurfaceError::Lost))
    );
}

#[test]
fn windowing_system_keeps_its_outbox_in_order() {
    let mut windowing = WindowingSystem::new(size(4, 3));
    assert_eq!(windowing.get_inner_size(), size(4, 3));
    assert!(!windowing.is_force_quit());
    assert!(!windowing.take_redraw_request());
    windowing.queue_quit();
    windowing.queue_quit();
    windowing.request_redraw();
    windowing.set_inner_size(size(8, 6));
    assert_eq!(windowing.get_inner_size(), size(8, 6));
    assert_eq!(windowing.take_requests(), vec![Request::Quit, Request::Quit]);
    assert!(windowing.take_requests().is_empty());
    assert!(windowing.take_redraw_request());
    assert!(!windowing.take_redraw_request());
    windowing.force_quit();
    assert!(windowing.is_force_quit());
}

#[test]
fn chrono_counts_frames_and_measures_from_the_second_on() {
    let mut chrono = ChronoSystem::new();
    assert_eq!(chrono.frame_number(), 0);
    assert_eq!(chrono.last_frame_nanos(), None);
    chrono.start_new_frame();
    assert_eq!(chrono.frame_number(), 1);
    assert_eq!(chrono.last_frame_nanos(), None);
    let first = std::time::SystemTime::now();
    let second = first + std::time::Duration::from_nanos(1_500);
    chrono.start_new_frame_at(first);
    assert_eq!(chrono.frame_number(), 2);
    chrono.start_new_frame_at(second);
    assert_eq!(chrono.frame_number(), 3);
    assert_eq!(chrono.last_frame_nanos(), Some(1_500));
    // A clock that went backwards gives no duration.
    chrono.start_new_frame_at(first);
    assert_eq!(chrono.last_frame_nanos(), None);
    chrono.start_new_frame_at(first);
    assert_eq!(chrono.last_frame_nanos(), Some(0));

    let mut ctx = context();
    assert_eq!(delta_time_nanos(&ctx), None);
    ctx.chrono_system.as_mut().unwrap().start_new_frame_at(first);
    assert_eq!(delta_time_nanos(&ctx), None);
    ctx.chrono_system.as_mut().unwrap().start_new_frame_at(second);
    assert_eq!(delta_time_nanos(&ctx), Some(1_500));
}

#[test]
fn overlay_functions_run_once_in_the_order_they_were_added() {
    let mut overlay: ImguiSystem<u32> = ImguiSystem::new();
    assert!(overlay.render().is_empty());
    overlay.add_render_fn(3);
    overlay.add_render_fn(1);
    overlay.add_render_fn(2);
    assert_eq!(overlay.render(), vec![3, 1, 2]);
    assert!(overlay.render().is_empty());

    let mut ctx = context();
    ctx.imgui_init();
    add_render_fn(&mut ctx, "window");
    add_render_fn(&mut ctx, "text");
    assert_eq!(render(&mut ctx), vec!["window", "text"]);
    assert!(render(&mut ctx).is_empty());
}

fn path(components: &[&str]) -> Vec<String> {
    components.iter().map(|c| c.to_string()).collect()
}

#[test]
fn top_path_is_found_from_the_place_of_the_executable() {
    assert_eq!(
        calculate_top_path(&path(&["/", "home", "project", "target", "debug", "sandbox"])),
        Some(path(&["/", "home", "project"]))
    );
    assert_eq!(
        calculate_top_path(&path(&["/", "opt", "test_rel", "sandbox"])),
        Some(path(&["/", "opt", "test_rel"]))
    );
    assert_eq!(calculate_top_path(&path(&["/", "opt", "release", "sandbox"])), None);
    assert_eq!(calculate_top_path(&path(&["debug", "sandbox"])), Some(path(&[])));
    assert_eq!(calculate_top_path(&path(&["target", "debug", "sandbox"])), Some(path(&[])));
    assert_eq!(calculate_top_path(&path(&["a", "target", "debug", "sandbox"])), Some(path(&["a"])));
    assert_eq!(calculate_top_path(&path(&["sandbox"])), None);
    assert_eq!(calculate_top_path(&path(&[])), None);
    // Only the folder of the executable counts, not its own name.
    assert_eq!(calculate_top_path(&path(&["/", "bin", "debug"])), None);
}

#[test]
fn assets_lie_in_the_assets_folder_of_their_owner() {
    let top = path(&["/", "home", "project"]);
    assert_eq!(
        get_folder_assets_path(&top, "sample_sandbox"),
        path(&["/", "home", "project", "sample_sandbox", "assets"])
    );
    assert_eq!(
        calculate_engine_assets_path(&top),
        path(&["/", "home", "project", "mat_engine", "assets"])
    );
    assert_eq!(get_folder_assets_path(&path(&[]), ""), path(&["", "assets"]));
}

#[test]
fn unwrapping_gives_the_content() {
    let mut system = Some(5);
    assert_eq!(*unwrap_ref(&system), 5);
    *unwrap_mut(&mut system) += 1;
    assert_eq!(system, Some(6));
}

#[test]
fn queue_counts_its_start_events() {
    let mut ctx = context();
    assert_eq!(ctx.event_queue.starts(), 0);
    ctx.event_queue.push_event(Event::PreUpdateEvent);
    ctx.event_queue.push_event(Event::Start);
    ctx.event_queue.push_event(Event::WindowResizeEvent(WindowResizeEvent { new_size: size(1, 2) }));
    ctx.event_queue.push_event(Event::Start);
    assert_eq!(ctx.event_queue.starts(), 2);
    assert_eq!(ctx.event_queue.retrieve_event(), Some(Event::PreUpdateEvent));
    assert_eq!(ctx.event_queue.retrieve_event(), Some(Event::Start));
    assert_eq!(ctx.event_queue.starts(), 1);
}

#[test]
fn context_is_ready_for_an_event_when_the_systems_it_needs_are_there() {
    let every_event = vec![
        LoopEvent::NewEvents,
        LoopEvent::UserEvent(Request::Quit),
        LoopEvent::WindowEvent(WindowEvent::CursorEntered),
        LoopEvent::WindowEvent(WindowEvent::Resized(size(1, 1))),
        LoopEvent::DeviceEvent,
        LoopEvent::MainEventsCleared,
        LoopEvent::RedrawRequested,
        LoopEvent::RedrawEventsCleared,
        LoopEvent::Other,
    ];
    let ready = context();
    for event in &every_event {
        assert!(is_loop_event_ready(&ready, event));
    }
    assert!(is_loop_event_ready(&ready, &LoopEvent::LoopDestroyed));

    // Without a windowing system only the end of the loop can be handled.
    let bare: EngineContext<Fake> = EngineContext::uninit();
    for event in &every_event {
        assert!(!is_loop_event_ready(&bare, event));
    }
    assert!(is_loop_event_ready(&bare, &LoopEvent::LoopDestroyed));

    // Without an input system: whatever does not reach the input system.
    let mut no_input: EngineContext<Fake> = EngineContext::uninit();
    no_input.chrono_init();
    no_input.windowing_init(size(8, 6));
    assert!(!is_loop_event_ready(&no_input, &LoopEvent::NewEvents));
    assert!(!is_loop_event_ready(&no_input, &LoopEvent::DeviceEvent));
    assert!(!is_loop_event_ready(&no_input, &LoopEvent::WindowEvent(WindowEvent::CursorEntered)));
    assert!(is_loop_event_ready(&no_input, &LoopEvent::WindowEvent(WindowEvent::Resized(size(1, 1)))));
    assert!(is_loop_event_ready(&no_input, &LoopEvent::WindowEvent(WindowEvent::CloseRequested)));
    assert!(is_loop_event_ready(&no_input, &LoopEvent::MainEventsCleared));
    assert!(is_loop_event_ready(&no_input, &LoopEvent::RedrawRequested));
    assert!(is_drain_ready(&no_input));
    // A start in the queue needs the input system.
    no_input.event_queue.push_event(Event::Start);
    assert!(!is_drain_ready(&no_input));
    assert!(!is_loop_event_ready(&no_input, &LoopEvent::MainEventsCleared));
    assert!(!is_loop_event_ready(&no_input, &LoopEvent::RedrawRequested));

    // Without a chrono system no frame starts.
    let mut no_chrono: EngineContext<Fake> = EngineContext::uninit();
    no_chrono.input_init();
    no_chrono.windowing_init(size(8, 6));
    assert!(!is_loop_event_ready(&no_chrono, &LoopEvent::NewEvents));
    assert!(is_loop_event_ready(&no_chrono, &LoopEvent::DeviceEvent));

    // An event that is left in the queue: the frame cannot start.
    let mut left_over = context();
    left_over.event_queue.push_event(Event::PostRenderEvent);
    assert!(!is_loop_event_ready(&left_over, &LoopEvent::NewEvents));
    assert!(is_loop_event_ready(&left_over, &LoopEvent::MainEventsCleared));
    left_over.event_queue.push_event(Event::Start);
    assert!(is_drain_ready(&left_over));

    // After a forced quit every event is ignored, so any context will do.
    let mut forced: EngineContext<Fake> = EngineContext::uninit();
    forced.windowing_init(size(8, 6));
    force_quit(&mut forced);
    for event in &every_event {
        assert!(is_loop_event_ready(&forced, event));
    }
}
