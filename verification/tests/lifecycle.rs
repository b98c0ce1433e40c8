use win_overlay::protocol::{wnd_proc, Placement, ERROR_CLASS_ALREADY_EXISTS, HWND_TOPMOST, WM_DESTROY};
use win_overlay::{Action, ErrorKind, Overlay, OverlayError, OverlayState, Rect, Reply, Stage};

const TARGET: usize = 11;
const WINDOW: usize = 22;
const CONTEXT: usize = 33;
const DEVICE: usize = 44;

fn rect() -> Rect {
    Rect { left: 100, top: 50, right: 740, bottom: 530 }
}

fn geometry(rect: Rect) -> Reply {
    Reply::TargetRect { found: true, rect }
}

/// Takes a fresh overlay as far as the creation of the window.
fn with_window(offset: i32) -> Overlay {
    let mut overlay = Overlay::with_offset(TARGET, offset);
    overlay.create_overlay(Reply::Nothing);
    overlay.create_overlay(Reply::ClassRegistered { atom: 7, last_error: 0 });
    overlay.create_overlay(geometry(rect()));
    overlay.create_overlay(Reply::WindowCreated { window: WINDOW });
    assert_eq!(overlay.state().stage, Stage::CreatingContext);
    overlay
}

/// Takes a fresh overlay through the whole construction.
fn complete(offset: i32) -> Overlay {
    let mut overlay = with_window(offset);
    overlay.create_overlay(Reply::ContextCreated { context: CONTEXT });
    overlay.create_overlay(Reply::DeviceCreated { status: 0, device: DEVICE });
    assert_eq!(overlay.state().stage, Stage::Syncing);
    overlay
}

#[test]
fn a_new_overlay_holds_nothing() {
    let overlay = Overlay::new(TARGET);
    let expected = OverlayState {
        target: TARGET,
        surface: 0,
        context: 0,
        device: 0,
        fps: 0,
        offset: 0,
        rect: Rect { left: 0, top: 0, right: 0, bottom: 0 },
        stage: Stage::Fresh,
        stopping: false,
        failure: None,
    };
    assert_eq!(overlay.state(), expected);
    assert_eq!(Overlay::with_offset(TARGET, 12).state(), OverlayState { offset: 12, ..expected });
    assert_eq!(Overlay::default().state(), OverlayState { target: 0, ..expected });
}

#[test]
fn tearing_down_an_overlay_that_was_never_created_releases_nothing() {
    let mut overlay = Overlay::default();
    assert_eq!(overlay.destroy(), Vec::new());
    assert_eq!(overlay.state().stage, Stage::Halted);
    assert_eq!(overlay.destroy(), Vec::new());

    let mut overlay = Overlay::new(TARGET);
    overlay.create_overlay(Reply::Nothing);
    assert_eq!(overlay.destroy(), Vec::new());
}

#[test]
fn teardown_goes_device_context_surface_and_happens_once() {
    let mut overlay = complete(0);
    assert_eq!(
        overlay.destroy(),
        vec![
            Action::ReleaseDevice { device: DEVICE },
            Action::ReleaseContext { context: CONTEXT },
            Action::DestroyWindow { window: WINDOW },
        ]
    );
    assert_eq!(overlay.get_device(), 0);
    assert_eq!(overlay.get_d3d(), 0);
    assert_eq!(overlay.get_overlay(), 0);
    assert_eq!(overlay.get_target(), TARGET);
    assert_eq!(overlay.state().stage, Stage::Halted);
    assert_eq!(overlay.state().failure, None);
    assert_eq!(overlay.destroy(), Vec::new());
}

#[test]
fn teardown_in_the_middle_of_construction_releases_what_exists() {
    let mut overlay = with_window(0);
    assert_eq!(overlay.destroy(), vec![Action::DestroyWindow { window: WINDOW }]);

    let mut overlay = with_window(0);
    overlay.create_overlay(Reply::ContextCreated { context: CONTEXT });
    assert_eq!(
        overlay.destroy(),
        vec![
            Action::ReleaseContext { context: CONTEXT },
            Action::DestroyWindow { window: WINDOW },
        ]
    );
}

#[test]
fn a_class_that_is_already_registered_is_no_failure() {
    let mut overlay = Overlay::new(TARGET);
    overlay.create_overlay(Reply::Nothing);
    let batch = overlay.create_overlay(Reply::ClassRegistered {
        atom: 0,
        last_error: ERROR_CLASS_ALREADY_EXISTS,
    });
    assert_eq!(batch, vec![Action::QueryTargetRect { target: TARGET }]);
    assert_eq!(overlay.state().stage, Stage::Measuring);
}

#[test]
fn a_failed_class_registration_is_fatal() {
    let mut overlay = Overlay::new(TARGET);
    overlay.create_overlay(Reply::Nothing);
    let batch = overlay.create_overlay(Reply::ClassRegistered { atom: 0, last_error: 8 });
    assert_eq!(batch, Vec::new());
    assert_eq!(overlay.state().stage, Stage::Halted);
    assert_eq!(overlay.state().failure, Some(OverlayError::ClassRegistration));
}

#[test]
fn a_target_without_a_rectangle_stops_the_construction() {
    let mut overlay = Overlay::new(TARGET);
    overlay.create_overlay(Reply::Nothing);
    overlay.create_overlay(Reply::ClassRegistered { atom: 7, last_error: 0 });
    let batch = overlay.create_overlay(Reply::TargetRect { found: false, rect: rect() });
    assert_eq!(batch, Vec::new());
    assert_eq!(overlay.state().failure, Some(OverlayError::StaleTarget));

    // a rectangle with swapped edges is no rectangle of a window either
    let mut overlay = Overlay::new(TARGET);
    overlay.create_overlay(Reply::Nothing);
    overlay.create_overlay(Reply::ClassRegistered { atom: 7, last_error: 0 });
    let swapped = Rect { left: 10, top: 0, right: 0, bottom: 10 };
    assert_eq!(overlay.create_overlay(geometry(swapped)), Vec::new());
    assert_eq!(overlay.state().failure, Some(OverlayError::StaleTarget));
}

#[test]
fn a_window_that_cannot_be_created_is_fatal() {
    let mut overlay = Overlay::new(TARGET);
    overlay.create_overlay(Reply::Nothing);
    overlay.create_overlay(Reply::ClassRegistered { atom: 7, last_error: 0 });
    overlay.create_overlay(geometry(rect()));
    let batch = overlay.create_overlay(Reply::WindowCreated { window: 0 });
    assert_eq!(batch, Vec::new());
    assert_eq!(overlay.state().stage, Stage::Halted);
    assert_eq!(overlay.state().failure, Some(OverlayError::WindowCreation));
}

#[test]
fn a_context_that_cannot_be_created_takes_the_window_down() {
    let mut overlay = with_window(0);
    let batch = overlay.create_overlay(Reply::ContextCreated { context: 0 });
    assert_eq!(batch, vec![Action::DestroyWindow { window: WINDOW }]);
    assert_eq!(overlay.state().failure, Some(OverlayError::ContextCreation));
    assert_eq!(overlay.get_overlay(), 0);
}

#[test]
fn a_device_that_cannot_be_created_releases_context_and_window() {
    let mut overlay = with_window(0);
    overlay.create_overlay(Reply::ContextCreated { context: CONTEXT });
    let batch = overlay.create_overlay(Reply::DeviceCreated { status: -2005530516, device: 0 });
    assert_eq!(
        batch,
        vec![
            Action::ReleaseContext { context: CONTEXT },
            Action::DestroyWindow { window: WINDOW },
        ]
    );
    assert_eq!(overlay.state().stage, Stage::Halted);
    assert_eq!(overlay.state().failure, Some(OverlayError::DeviceCreation));
    assert_eq!(overlay.get_overlay(), 0);
    assert_eq!(overlay.get_d3d(), 0);
    assert_eq!(overlay.get_device(), 0);
    assert_eq!(overlay.destroy(), Vec::new());
}

#[test]
fn the_graphics_step_releases_the_context_and_leaves_the_window() {
    let mut overlay = with_window(0);
    overlay.init_dx9(Reply::ContextCreated { context: CONTEXT });
    assert_eq!(overlay.state().stage, Stage::CreatingDevice);
    let batch = overlay.init_dx9(Reply::DeviceCreated { status: -2005530516, device: 0 });
    assert_eq!(batch, vec![Action::ReleaseContext { context: CONTEXT }]);
    assert_eq!(overlay.state().stage, Stage::GraphicsFailed);
    assert_eq!(overlay.state().failure, Some(OverlayError::DeviceCreation));
    assert_eq!(overlay.get_overlay(), WINDOW);
    assert_eq!(overlay.get_d3d(), 0);
    assert_eq!(overlay.get_device(), 0);
    // the graphics step has nothing more to do
    assert_eq!(overlay.init_dx9(Reply::DeviceCreated { status: 0, device: DEVICE }), Vec::new());
    assert_eq!(overlay.draw(geometry(rect())), Vec::new());
    assert_eq!(overlay.draw_filled_box(0, 0, 1, 1, 1), None);
    // the window is the construction's to take down
    assert_eq!(
        overlay.create_overlay(Reply::Nothing),
        vec![Action::DestroyWindow { window: WINDOW }]
    );
    assert_eq!(overlay.state().stage, Stage::Halted);
    assert_eq!(overlay.state().failure, Some(OverlayError::DeviceCreation));
    assert_eq!(overlay.get_overlay(), 0);
}

#[test]
fn the_graphics_step_has_nothing_to_release_without_a_context() {
    let mut overlay = with_window(0);
    assert_eq!(overlay.init_dx9(Reply::ContextCreated { context: 0 }), Vec::new());
    assert_eq!(overlay.state().stage, Stage::GraphicsFailed);
    assert_eq!(overlay.state().failure, Some(OverlayError::ContextCreation));
    assert_eq!(overlay.get_overlay(), WINDOW);
    // teardown finds the window, and the failure stays on record
    assert_eq!(overlay.destroy(), vec![Action::DestroyWindow { window: WINDOW }]);
    assert_eq!(overlay.state().stage, Stage::Halted);
    assert_eq!(overlay.state().failure, Some(OverlayError::ContextCreation));

    // a device that reports success without a handle is a failure too
    let mut overlay = with_window(0);
    overlay.init_dx9(Reply::ContextCreated { context: CONTEXT });
    assert_eq!(
        overlay.step(Reply::DeviceCreated { status: 0, device: 0 }),
        vec![
            Action::ReleaseContext { context: CONTEXT },
            Action::DestroyWindow { window: WINDOW },
        ]
    );
    assert_eq!(overlay.state().failure, Some(OverlayError::DeviceCreation));
}

#[test]
fn a_reply_of_the_wrong_kind_fails_the_stage() {
    let mut overlay = with_window(0);
    let batch = overlay.create_overlay(Reply::WindowCreated { window: 99 });
    assert_eq!(batch, vec![Action::DestroyWindow { window: WINDOW }]);
    assert_eq!(overlay.state().failure, Some(OverlayError::ContextCreation));
}

#[test]
fn init_dx9_does_nothing_outside_its_stages() {
    let mut overlay = Overlay::new(TARGET);
    assert_eq!(overlay.init_dx9(Reply::ContextCreated { context: CONTEXT }), Vec::new());
    assert_eq!(overlay.state().stage, Stage::Fresh);

    let mut overlay = complete(0);
    let before = overlay.state();
    assert_eq!(overlay.init_dx9(Reply::DeviceCreated { status: 0, device: 5 }), Vec::new());
    assert_eq!(overlay.create_overlay(Reply::Nothing), Vec::new());
    assert_eq!(overlay.state(), before);
}

#[test]
fn nothing_is_drawn_before_the_construction_is_complete() {
    let mut overlay = with_window(0);
    let before = overlay.state();
    assert_eq!(overlay.draw(geometry(rect())), Vec::new());
    assert_eq!(overlay.begin_drawing(rect()), Vec::new());
    assert_eq!(overlay.end_drawing(), Vec::new());
    assert_eq!(overlay.draw_filled_box(0, 0, 10, 10, 0xFFFF_FFFF), None);
    assert_eq!(overlay.draw_box(0, 0, 10, 10, 1, 0xFFFF_FFFF), None);
    assert_eq!(overlay.state(), before);
}

#[test]
fn sync_puts_the_overlay_where_the_target_is() {
    let overlay = complete(0);
    for r in [
        rect(),
        Rect { left: 0, top: 0, right: 800, bottom: 600 },
        Rect { left: -1920, top: -3, right: -640, bottom: 717 },
        Rect { left: 5, top: 5, right: 5, bottom: 5 },
    ] {
        let action = overlay.ensure_position(r).unwrap();
        match action {
            Action::SetWindowPos { window, placement } => {
                assert_eq!(window, WINDOW);
                assert_eq!(placement.insert_after, HWND_TOPMOST);
                assert_eq!(placement.flags, 0);
                let placed = Rect {
                    left: placement.x,
                    top: placement.y,
                    right: placement.x + placement.width,
                    bottom: placement.y + placement.height,
                };
                assert_eq!(placed, r);
            }
            other => panic!("unexpected action {:?}", other),
        }
    }
}

#[test]
fn sync_applies_the_vertical_offset() {
    let overlay = complete(12);
    assert_eq!(
        overlay.ensure_position(rect()),
        Some(Action::SetWindowPos {
            window: WINDOW,
            placement: Placement {
                insert_after: HWND_TOPMOST,
                x: 100,
                y: 62,
                width: 640,
                height: 480,
                flags: 0,
            },
        })
    );
}

#[test]
fn sync_refuses_what_cannot_be_placed() {
    let overlay = complete(12);
    // the shifted top edge leaves the range of coordinates
    let low = Rect { left: 0, top: i32::MAX - 11, right: 10, bottom: i32::MAX };
    assert_eq!(overlay.ensure_position(low), None);
    let fits = Rect { left: 0, top: i32::MAX - 12, right: 10, bottom: i32::MAX };
    assert!(overlay.ensure_position(fits).is_some());
    // swapped edges
    assert_eq!(overlay.ensure_position(Rect { left: 1, top: 0, right: 0, bottom: 0 }), None);
    // wider than a length can say
    assert_eq!(overlay.ensure_position(Rect { left: -2, top: 0, right: i32::MAX, bottom: 0 }), None);
    // no overlay window
    assert_eq!(Overlay::new(TARGET).ensure_position(rect()), None);
}

#[test]
fn begin_and_end_frame_a_scene() {
    let mut overlay = complete(0);
    let begin = overlay.begin_drawing(rect());
    assert_eq!(
        begin,
        vec![
            Action::SetWindowPos {
                window: WINDOW,
                placement: Placement {
                    insert_after: HWND_TOPMOST,
                    x: 100,
                    y: 50,
                    width: 640,
                    height: 480,
                    flags: 0,
                },
            },
            Action::Clear { device: DEVICE, region: None, color: 0 },
            Action::BeginScene { device: DEVICE },
        ]
    );
    assert_eq!(overlay.state().stage, Stage::InScene);
    // a scene that is open cannot be begun again
    assert_eq!(overlay.begin_drawing(rect()), Vec::new());

    let end = overlay.end_drawing();
    assert_eq!(
        end,
        vec![Action::EndScene { device: DEVICE }, Action::Present { device: DEVICE }]
    );
    assert_eq!(overlay.state().stage, Stage::Syncing);
    // and one that is closed cannot be ended again
    assert_eq!(overlay.end_drawing(), Vec::new());
}

#[test]
fn a_target_that_is_gone_stops_the_loop_cleanly() {
    let mut overlay = complete(0);
    overlay.draw(geometry(rect()));
    overlay.draw(Reply::Nothing);
    let batch = overlay.draw(Reply::TargetRect {
        found: false,
        rect: Rect { left: 0, top: 0, right: 0, bottom: 0 },
    });
    assert_eq!(
        batch,
        vec![
            Action::ReleaseDevice { device: DEVICE },
            Action::ReleaseContext { context: CONTEXT },
            Action::DestroyWindow { window: WINDOW },
        ]
    );
    assert_eq!(overlay.state().stage, Stage::Halted);
    assert_eq!(overlay.state().failure, Some(OverlayError::StaleTarget));
    assert_eq!(overlay.draw(geometry(rect())), Vec::new());
}

#[test]
fn a_requested_stop_is_honoured_between_frames() {
    let mut overlay = complete(0);
    overlay.draw(geometry(rect()));
    overlay.request_stop();
    assert!(overlay.state().stopping);
    // the frame that is under way is finished first
    assert_eq!(
        overlay.draw(Reply::Nothing),
        vec![
            Action::EndScene { device: DEVICE },
            Action::Present { device: DEVICE },
            Action::QueryTargetRect { target: TARGET },
        ]
    );
    assert_eq!(
        overlay.draw(geometry(rect())),
        vec![
            Action::ReleaseDevice { device: DEVICE },
            Action::ReleaseContext { context: CONTEXT },
            Action::DestroyWindow { window: WINDOW },
        ]
    );
    assert_eq!(overlay.state().stage, Stage::Halted);
    assert_eq!(overlay.state().failure, None);
}

#[test]
fn only_a_destroy_message_asks_for_a_stop() {
    assert!(wnd_proc(WM_DESTROY));
    assert!(wnd_proc(2));
    assert!(!wnd_proc(0));
    assert!(!wnd_proc(1));
    assert!(!wnd_proc(3));
    assert!(!wnd_proc(0x0010));
    assert!(!wnd_proc(u32::MAX));
}

#[test]
fn every_failure_has_its_kind_and_its_message() {
    let table = [
        (OverlayError::TargetNotFound, ErrorKind::TargetNotFound, "Couldn't find window..."),
        (OverlayError::ClassRegistration, ErrorKind::WindowSubsystem, "Unable to register window class!"),
        (OverlayError::WindowCreation, ErrorKind::WindowSubsystem, "Unable to create window"),
        (OverlayError::ContextCreation, ErrorKind::GraphicsInit, "Unable to create d3d9x object..."),
        (OverlayError::DeviceCreation, ErrorKind::GraphicsInit, "Failed to create device"),
        (OverlayError::StaleTarget, ErrorKind::StaleTarget, "Target window is gone"),
    ];
    for (error, kind, message) in table {
        assert_eq!(error.kind(), kind);
        assert_eq!(error.message(), message);
    }
}
