use vidcapview::window::{
    classify_message, client_rect, get_mouse_position, rect_size, MessageKind, Placement, Rect,
    WindowAction, WindowMessage, WindowState,
};

#[test]
fn message_kinds() {
    assert_eq!(classify_message(2), MessageKind::Destroy);
    assert_eq!(classify_message(512), MessageKind::MouseMove);
    assert_eq!(classify_message(5), MessageKind::Size);
    assert_eq!(classify_message(532), MessageKind::Size);
    assert_eq!(classify_message(513), MessageKind::LeftButtonDown);
    assert_eq!(classify_message(516), MessageKind::RightButtonDown);
    assert_eq!(classify_message(786), MessageKind::HotKey);
    assert_eq!(classify_message(15), MessageKind::Other);
}

#[test]
fn mouse_position() {
    assert_eq!(get_mouse_position(0x0012_0034), (0x34, 0x12));
    assert_eq!(get_mouse_position(-1), (0xffff, 0xffff));
    assert_eq!(get_mouse_position(0x7_0002_0001), (1, 2));
}

#[test]
fn rect_sizes() {
    assert_eq!(rect_size(&Rect { left: 10, top: 20, right: 810, bottom: 620 }), (800, 600));
    let r = client_rect(800, 600);
    assert_eq!(r, Rect { left: 0, top: 0, right: 800, bottom: 600 });
}

#[test]
fn destroy_quits() {
    let mut s = WindowState::new();
    assert_eq!(s.message_handler(&WindowMessage::Destroy), WindowAction::Quit);
    assert!(s.is_closed);
}

#[test]
fn pointer_and_size_messages() {
    let mut s = WindowState::new();
    assert_eq!(
        s.message_handler(&WindowMessage::MouseMove { lparam: 0x0005_0007 }),
        WindowAction::PointerMoved { x: 7, y: 5 }
    );
    assert_eq!(
        s.message_handler(&WindowMessage::LeftButtonDown),
        WindowAction::PointerPressed { is_right_button: false, is_eraser: false }
    );
    assert_eq!(
        s.message_handler(&WindowMessage::RightButtonDown),
        WindowAction::PointerPressed { is_right_button: true, is_eraser: false }
    );
    assert!(!s.resized);
    assert_eq!(
        s.message_handler(&WindowMessage::Size { width: 320, height: 240 }),
        WindowAction::ParentSizeChanged { width: 320, height: 240 }
    );
    assert!(s.resized);
    assert_eq!(s.message_handler(&WindowMessage::Other), WindowAction::Default);
}

#[test]
fn fullscreen_round_trip() {
    let mut s = WindowState::new();
    let window = Rect { left: 100, top: 50, right: 916, bottom: 689 };
    let monitor = Rect { left: 0, top: 0, right: 1920, bottom: 1080 };
    assert_eq!(
        s.message_handler(&WindowMessage::HotKey { window_rect: window, monitor_rect: monitor }),
        WindowAction::EnterFullscreen { placement: Placement { x: 0, y: 0, cx: 1920, cy: 1080 } }
    );
    assert!(s.is_fullscreen);
    assert_eq!(
        s.message_handler(&WindowMessage::HotKey { window_rect: monitor, monitor_rect: monitor }),
        WindowAction::LeaveFullscreen { placement: Placement { x: 100, y: 50, cx: 816, cy: 639 } }
    );
    assert!(!s.is_fullscreen);
    assert_eq!(s.last_rect, window);
}

#[test]
fn entering_fullscreen_does_not_measure_the_window() {
    let mut s = WindowState::new();
    let huge = Rect { left: i32::MIN, top: i32::MIN, right: i32::MAX, bottom: i32::MAX };
    let monitor = Rect { left: 0, top: 0, right: 1280, bottom: 720 };
    let message = WindowMessage::HotKey { window_rect: huge, monitor_rect: monitor };
    assert!(s.handles(&message));
    assert_eq!(
        s.message_handler(&message),
        WindowAction::EnterFullscreen { placement: Placement { x: 0, y: 0, cx: 1280, cy: 720 } }
    );
    assert_eq!(s.last_rect, huge);
    assert!(!s.handles(&message));
}
