use canvas_bootstrap::canvas::CanvasModel;
use canvas_bootstrap::embedded::canvas_element_id;
use canvas_bootstrap::embedded::locate_canvas_element;
use canvas_bootstrap::embedded::ElementInfo;
use canvas_bootstrap::embedded::HostLookup;
use canvas_bootstrap::error::BootstrapError;
use canvas_bootstrap::init_canvas;
use canvas_bootstrap::window::WindowInfo;
use canvas_bootstrap::ProvisionOutcome;

fn host_window(element: u64) -> WindowInfo {
    WindowInfo {
        id: 1,
        display_id: 0,
        physical_width: 640,
        physical_height: 480,
        scale_milli: 1000,
        focus_requested: false,
        host_element_id: Some(element),
    }
}

#[test]
fn the_element_identifier_is_fixed() {
    assert_eq!(canvas_element_id(), "canvas");
}

#[test]
fn missing_canvas_element_fails_before_any_renderer() {
    // Each lookup failure must end the bootstrap here: a renderer can only be
    // constructed from the located element, which these paths never produce.
    match locate_canvas_element(HostLookup::DocumentMissing) {
        Err(e) => assert_eq!(e, BootstrapError::HostDocumentMissing),
        Ok(_) => panic!("a missing host document must abort the bootstrap"),
    }
    match locate_canvas_element(HostLookup::ElementMissing) {
        Err(e) => assert_eq!(e, BootstrapError::CanvasElementMissing),
        Ok(_) => panic!("a missing canvas element must abort the bootstrap"),
    }
    match locate_canvas_element(HostLookup::TypeMismatch) {
        Err(e) => assert_eq!(e, BootstrapError::ElementTypeMismatch),
        Ok(_) => panic!("an element of the wrong type must abort the bootstrap"),
    }
}

#[test]
fn embedded_end_to_end_wraps_the_located_element() {
    let element = ElementInfo { handle: 5 };
    let located = locate_canvas_element(HostLookup::Canvas(element)).unwrap();
    assert_eq!(located.element, element);

    let ready = located
        .attach_renderer(true)
        .unwrap()
        .create_window(Some(host_window(5)))
        .unwrap()
        .build_canvas(true)
        .unwrap();
    assert_eq!(
        ready.canvas,
        CanvasModel { width: 0, height: 0, scale_milli: 1000, sized: false }
    );

    let handler = init_canvas(ProvisionOutcome::Embedded(ready), vec![3u8]);
    assert_eq!(handler.default_scale, 50);
    assert!(handler.window.focus_requested);
    assert_eq!(handler.equations, vec![3u8]);

    // The handler wraps exactly the located element and has no separate
    // context or surface: the host environment owns both.
    assert_eq!(handler.window.host_element_id, Some(5));
    assert!(handler.context.is_none());
    assert!(handler.surface.is_none());
    assert!(!handler.canvas.sized);
}

#[test]
fn each_embedded_step_fails_with_its_own_error() {
    let element = ElementInfo { handle: 5 };

    let located = locate_canvas_element(HostLookup::Canvas(element)).unwrap();
    match located.attach_renderer(false) {
        Err(e) => assert_eq!(e, BootstrapError::RendererConstructionFailed),
        Ok(_) => panic!("a failed renderer construction must abort the bootstrap"),
    }

    let with_renderer = locate_canvas_element(HostLookup::Canvas(element))
        .unwrap()
        .attach_renderer(true)
        .unwrap();
    match with_renderer.create_window(None) {
        Err(e) => assert_eq!(e, BootstrapError::WindowCreationFailed),
        Ok(_) => panic!("a failed window creation must abort the bootstrap"),
    }

    let with_window = locate_canvas_element(HostLookup::Canvas(element))
        .unwrap()
        .attach_renderer(true)
        .unwrap()
        .create_window(Some(host_window(5)))
        .unwrap();
    match with_window.build_canvas(false) {
        Err(e) => assert_eq!(e, BootstrapError::CanvasConstructionFailed),
        Ok(_) => panic!("a failed canvas construction must abort the bootstrap"),
    }
}
