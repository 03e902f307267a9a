use canvas_bootstrap::canvas::CanvasModel;
use canvas_bootstrap::context::NotCurrentContext;
use canvas_bootstrap::context::SurfaceHandle;
use canvas_bootstrap::error::BootstrapError;
use canvas_bootstrap::init_canvas;
use canvas_bootstrap::native::NativeBootstrap;
use canvas_bootstrap::pixel_format::select_config;
use canvas_bootstrap::pixel_format::PixelFormatConfig;
use canvas_bootstrap::pixel_format::PixelFormatRequest;
use canvas_bootstrap::window::window_title;
use canvas_bootstrap::window::WindowInfo;
use canvas_bootstrap::ProvisionOutcome;

fn cfg(alpha_bits: u8, display_id: u64) -> PixelFormatConfig {
    PixelFormatConfig { alpha_bits, display_id }
}

fn window_on_display(display_id: u64) -> WindowInfo {
    WindowInfo {
        id: 1,
        display_id,
        physical_width: 2000,
        physical_height: 1200,
        scale_milli: 2000,
        focus_requested: false,
        host_element_id: None,
    }
}

#[test]
fn select_takes_first_satisfying_offer() {
    let request = PixelFormatRequest { alpha_bits: 8 };
    let offered = vec![cfg(2, 7), cfg(8, 7), cfg(10, 7)];
    assert_eq!(select_config(&request, &offered), Ok(1));

    let offered = vec![cfg(9, 7), cfg(8, 7)];
    assert_eq!(select_config(&request, &offered), Ok(0));
}

#[test]
fn select_rejects_when_nothing_satisfies() {
    let request = PixelFormatRequest { alpha_bits: 8 };
    let offered = vec![cfg(0, 7), cfg(4, 7), cfg(7, 7)];
    assert_eq!(
        select_config(&request, &offered),
        Err(BootstrapError::NoCompatibleConfig)
    );
    assert_eq!(
        select_config(&request, &Vec::new()),
        Err(BootstrapError::NoCompatibleConfig)
    );
}

#[test]
fn selected_config_never_has_fewer_than_eight_alpha_bits() {
    let request = PixelFormatRequest { alpha_bits: 8 };
    let offered = vec![cfg(3, 7), cfg(12, 7), cfg(8, 7)];
    let i = select_config(&request, &offered).unwrap();
    assert!(offered[i].alpha_bits >= 8);
}

#[test]
fn start_holds_the_fixed_parameters() {
    let machine = NativeBootstrap::start();
    assert_eq!(machine.request.alpha_bits, 8);
    assert_eq!(machine.window_request.logical_width, 1000);
    assert_eq!(machine.window_request.logical_height, 600);
    assert_eq!(window_title(), "graph_rs");
}

#[test]
fn native_end_to_end_assembles_a_matching_handler() {
    let machine = NativeBootstrap::start();
    let offered = vec![cfg(4, 7), cfg(8, 7)];
    let negotiated = machine.negotiate(&offered).unwrap();
    assert_eq!(negotiated.config, cfg(8, 7));

    let window = window_on_display(7);
    let with_window = negotiated.attach_window(Some(window)).unwrap();
    let with_handle = with_window.acquire_handle(Some(42)).unwrap();
    assert_eq!(with_handle.raw_handle, 42);

    let context = NotCurrentContext { id: 3, display_id: 7 };
    let with_context = with_handle.build_context(Some(context)).unwrap();

    let surface = SurfaceHandle { id: 9, display_id: 7, width: 1000, height: 600 };
    let with_surface = with_context.create_surface(Some(surface)).unwrap();

    let current = with_surface.activate(true).unwrap();
    assert!(current.current.is_current());
    assert_eq!(current.current.context_id, 3);
    assert_eq!(current.current.surface_id, 9);

    let ready = current.attach_renderer(true).unwrap().build_canvas(true).unwrap();
    assert_eq!(
        ready.canvas,
        CanvasModel { width: 2000, height: 1200, scale_milli: 2000, sized: true }
    );

    let handler = init_canvas(ProvisionOutcome::Native(ready), vec![11u32, 22]);
    assert_eq!(handler.default_scale, 50);
    assert!(handler.window.focus_requested);
    assert_eq!(handler.equations, vec![11u32, 22]);

    // The window reports the fixed 1000 x 600 logical size under its scale
    // factor of two, and the canvas matches its physical size and scale.
    assert_eq!(handler.window.logical_width(), 1000);
    assert_eq!(handler.window.logical_height(), 600);
    assert_eq!(handler.canvas.width, handler.window.physical_width);
    assert_eq!(handler.canvas.height, handler.window.physical_height);
    assert_eq!(handler.canvas.scale_milli, handler.window.scale_milli);

    let context = handler.context.expect("native handler owns a context");
    let surface = handler.surface.expect("native handler owns a surface");
    assert!(context.is_current());
    assert_eq!(context.surface_id, surface.id);
    assert_eq!(context.display_id, handler.window.display_id);
    assert_eq!(surface.display_id, handler.window.display_id);
}

#[test]
fn unsatisfiable_negotiation_halts_before_any_window() {
    let machine = NativeBootstrap::start();
    let offered = vec![cfg(4, 7), cfg(0, 7)];
    match machine.negotiate(&offered) {
        Err(e) => assert_eq!(e, BootstrapError::NoCompatibleConfig),
        Ok(_) => panic!("negotiation must fail when nothing satisfies the request"),
    }
}

#[test]
fn missing_window_after_negotiation_is_fatal() {
    let machine = NativeBootstrap::start();
    let negotiated = machine.negotiate(&vec![cfg(8, 7)]).unwrap();
    match negotiated.attach_window(None) {
        Err(e) => assert_eq!(e, BootstrapError::MissingWindow),
        Ok(_) => panic!("a missing window must abort the bootstrap"),
    }
}

#[test]
fn each_native_step_fails_with_its_own_error() {
    let machine = NativeBootstrap::start();
    let negotiated = machine.negotiate(&vec![cfg(8, 7)]).unwrap();
    let with_window = negotiated.attach_window(Some(window_on_display(7))).unwrap();
    match with_window.acquire_handle(None) {
        Err(e) => assert_eq!(e, BootstrapError::RawHandleUnavailable),
        Ok(_) => panic!("an unavailable raw handle must abort the bootstrap"),
    }

    let rebuild = || {
        NativeBootstrap::start()
            .negotiate(&vec![cfg(8, 7)])
            .unwrap()
            .attach_window(Some(window_on_display(7)))
            .unwrap()
            .acquire_handle(Some(42))
            .unwrap()
    };

    match rebuild().build_context(None) {
        Err(e) => assert_eq!(e, BootstrapError::ContextCreationFailed),
        Ok(_) => panic!("a failed context creation must abort the bootstrap"),
    }

    let surface = SurfaceHandle { id: 9, display_id: 7, width: 1000, height: 600 };
    let with_context = rebuild()
        .build_context(Some(NotCurrentContext { id: 3, display_id: 7 }))
        .unwrap();
    match with_context.create_surface(None) {
        Err(e) => assert_eq!(e, BootstrapError::SurfaceCreationFailed),
        Ok(_) => panic!("a failed surface creation must abort the bootstrap"),
    }

    let with_surface = rebuild()
        .build_context(Some(NotCurrentContext { id: 3, display_id: 7 }))
        .unwrap()
        .create_surface(Some(surface))
        .unwrap();
    match with_surface.activate(false) {
        Err(e) => assert_eq!(e, BootstrapError::ActivationFailed),
        Ok(_) => panic!("a failed activation must abort the bootstrap"),
    }

    let current = rebuild()
        .build_context(Some(NotCurrentContext { id: 3, display_id: 7 }))
        .unwrap()
        .create_surface(Some(surface))
        .unwrap()
        .activate(true)
        .unwrap();
    match current.attach_renderer(false) {
        Err(e) => assert_eq!(e, BootstrapError::RendererConstructionFailed),
        Ok(_) => panic!("a failed renderer construction must abort the bootstrap"),
    }

    let ready = rebuild()
        .build_context(Some(NotCurrentContext { id: 3, display_id: 7 }))
        .unwrap()
        .create_surface(Some(surface))
        .unwrap()
        .activate(true)
        .unwrap()
        .attach_renderer(true)
        .unwrap();
    match ready.build_canvas(false) {
        Err(e) => assert_eq!(e, BootstrapError::CanvasConstructionFailed),
        Ok(_) => panic!("a failed canvas construction must abort the bootstrap"),
    }
}
