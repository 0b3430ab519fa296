use vstd::prelude::*;

verus! {

// Window message numbers that the viewer handles.
pub const WM_SIZE: u32 = 5;
pub const WM_DESTROY: u32 = 2;
pub const WM_MOUSEMOVE: u32 = 512;
pub const WM_LBUTTONDOWN: u32 = 513;
pub const WM_RBUTTONDOWN: u32 = 516;
pub const WM_SIZING: u32 = 532;
pub const WM_HOTKEY: u32 = 786;

/// A rectangle in screen or client coordinates.
#[derive(Clone, Copy, Debug, PartialEq, Eq, Structural)]
pub struct Rect {
    pub left: i32,
    pub top: i32,
    pub right: i32,
    pub bottom: i32,
}

impl Rect {
    /// The all-zero rectangle.
    pub fn zero() -> (r: Rect)
        ensures
            r == (Rect { left: 0, top: 0, right: 0, bottom: 0 }),
    {
        Rect { left: 0, top: 0, right: 0, bottom: 0 }
    }

    /// Width and height of the rectangle fit in 32 bits.
    pub open spec fn extents_fit(self) -> bool {
        &&& i32::MIN <= self.right - self.left <= i32::MAX
        &&& i32::MIN <= self.bottom - self.top <= i32::MAX
    }

    /// Whether the rectangle's width and height fit in 32 bits.
    pub fn fits(&self) -> (b: bool)
        ensures
            b == self.extents_fit(),
    {
        let width = self.right as i64 - self.left as i64;
        let height = self.bottom as i64 - self.top as i64;
        i32::MIN as i64 <= width && width <= i32::MAX as i64 && i32::MIN as i64 <= height && height
            <= i32::MAX as i64
    }

    /// The placement `(x, y, cx, cy)` that covers the rectangle.
    pub open spec fn placement_of(self) -> Placement {
        Placement {
            x: self.left,
            y: self.top,
            cx: (self.right - self.left) as i32,
            cy: (self.bottom - self.top) as i32,
        }
    }

    /// The placement that covers the rectangle: its top-left corner, its
    /// width and its height.
    pub fn placement(&self) -> (p: Placement)
        requires
            self.extents_fit(),
        ensures
            p == self.placement_of(),
    {
        Placement {
            x: self.left,
            y: self.top,
            cx: self.right - self.left,
            cy: self.bottom - self.top,
        }
    }
}

/// A window position and size: top-left corner, width and height.
#[derive(Clone, Copy, Debug, PartialEq, Eq, Structural)]
pub struct Placement {
    pub x: i32,
    pub y: i32,
    pub cx: i32,
    pub cy: i32,
}

/// The pointer position packed into a mouse message's `lparam`: the low
/// 16 bits are x, the next 16 bits are y, each read as unsigned.
pub fn get_mouse_position(lparam: isize) -> (position: (isize, isize))
    ensures
        position.0 == lparam as int % 0x1_0000,
        position.1 == (lparam as int / 0x1_0000) % 0x1_0000,
{
    let x = lparam & 0xffff;
    let y = (lparam >> 16) & 0xffff;
    assert(lparam & 0xffff == lparam as int % 0x1_0000) by (bit_vector);
    assert((lparam >> 16) & 0xffff == (lparam as int / 0x1_0000) % 0x1_0000) by (bit_vector);
    (x, y)
}

/// The size of a client rectangle: its width and height.
pub fn rect_size(rect: &Rect) -> (size: (i32, i32))
    requires
        rect.extents_fit(),
    ensures
        size.0 == rect.right - rect.left,
        size.1 == rect.bottom - rect.top,
{
    (rect.right - rect.left, rect.bottom - rect.top)
}

/// The client rectangle the viewer asks for: `width` by `height` at the
/// origin, each converted to a signed 32-bit number.
pub fn client_rect(width: u32, height: u32) -> (rect: Rect)
    ensures
        rect.left == 0,
        rect.top == 0,
        rect.right == width as i32,
        rect.bottom == height as i32,
{
    Rect { left: 0, top: 0, right: width as i32, bottom: height as i32 }
}

/// The window messages the viewer tells apart.
#[derive(Clone, Copy, Debug, PartialEq, Eq, Structural)]
pub enum MessageKind {
    Destroy,
    MouseMove,
    /// The window is being or has been resized.
    Size,
    LeftButtonDown,
    RightButtonDown,
    HotKey,
    Other,
}

/// Which of the handled messages `message` is.
pub open spec fn message_kind_of(message: u32) -> MessageKind {
    if message == WM_DESTROY {
        MessageKind::Destroy
    } else if message == WM_MOUSEMOVE {
        MessageKind::MouseMove
    } else if message == WM_SIZE || message == WM_SIZING {
        MessageKind::Size
    } else if message == WM_LBUTTONDOWN {
        MessageKind::LeftButtonDown
    } else if message == WM_RBUTTONDOWN {
        MessageKind::RightButtonDown
    } else if message == WM_HOTKEY {
        MessageKind::HotKey
    } else {
        MessageKind::Other
    }
}

/// Which of the handled messages `message` is; it tells what the window
/// must look up before the message can be handled.
pub fn classify_message(message: u32) -> (kind: MessageKind)
    ensures
        kind == message_kind_of(message),
{
    if message == WM_DESTROY {
        MessageKind::Destroy
    } else if message == WM_MOUSEMOVE {
        MessageKind::MouseMove
    } else if message == WM_SIZE || message == WM_SIZING {
        MessageKind::Size
    } else if message == WM_LBUTTONDOWN {
        MessageKind::LeftButtonDown
    } else if message == WM_RBUTTONDOWN {
        MessageKind::RightButtonDown
    } else if message == WM_HOTKEY {
        MessageKind::HotKey
    } else {
        MessageKind::Other
    }
}

/// A window message with what the window looked up for it.
#[derive(Clone, Copy, Debug, PartialEq, Eq, Structural)]
pub enum WindowMessage {
    Destroy,
    /// The pointer moved; `lparam` packs its position.
    MouseMove { lparam: isize },
    /// The window was resized; its client area is now `width` by `height`.
    Size { width: i32, height: i32 },
    LeftButtonDown,
    RightButtonDown,
    /// The full-screen hot key was pressed; the window occupies
    /// `window_rect` and its monitor covers `monitor_rect`.
    HotKey { window_rect: Rect, monitor_rect: Rect },
    Other,
}

/// What the window does in response to a message. After every action but
/// `Quit`, the message also goes to the default window procedure.
#[derive(Clone, Copy, Debug, PartialEq, Eq, Structural)]
pub enum WindowAction {
    /// Post the quit message and answer 0.
    Quit,
    /// Tell the application that the pointer is at (`x`, `y`).
    PointerMoved { x: isize, y: isize },
    /// Tell the application that its area is `width` by `height`.
    ParentSizeChanged { width: i32, height: i32 },
    /// Tell the application that a pointer button was pressed.
    PointerPressed { is_right_button: bool, is_eraser: bool },
    /// Give the window the pop-up style and place it, topmost, at `placement`.
    EnterFullscreen { placement: Placement },
    /// Give the window the overlapped style and place it, not topmost, at
    /// `placement`.
    LeaveFullscreen { placement: Placement },
    /// Nothing beyond the default processing.
    Default,
}

impl WindowAction {
    /// The message goes on to the default window procedure.
    pub open spec fn passes_to_default(self) -> bool {
        !(self is Quit)
    }
}

/// The viewer window's own state: whether it was destroyed, whether it has
/// been resized, whether it is full screen, and where it stood before it
/// went full screen.
#[derive(Clone, Copy, Debug, PartialEq, Eq, Structural)]
pub struct WindowState {
    pub is_closed: bool,
    pub resized: bool,
    pub is_fullscreen: bool,
    pub last_rect: Rect,
}

/// A message can be handled in a state when the rectangle whose width and
/// height it measures fits in 32 bits: the monitor's when entering full
/// screen, the saved one when leaving it.
pub open spec fn message_fits(state: WindowState, message: WindowMessage) -> bool {
    match message {
        WindowMessage::HotKey { window_rect, monitor_rect } => if state.is_fullscreen {
            state.last_rect.extents_fit()
        } else {
            monitor_rect.extents_fit()
        },
        _ => true,
    }
}

/// The state after `message` and the action it calls for.
pub open spec fn step(state: WindowState, message: WindowMessage) -> (WindowState, WindowAction) {
    match message {
        WindowMessage::Destroy => (WindowState { is_closed: true, ..state }, WindowAction::Quit),
        WindowMessage::MouseMove { lparam } => (
            state,
            WindowAction::PointerMoved {
                x: (lparam as int % 0x1_0000) as isize,
                y: ((lparam as int / 0x1_0000) % 0x1_0000) as isize,
            },
        ),
        WindowMessage::Size { width, height } => (
            WindowState { resized: true, ..state },
            WindowAction::ParentSizeChanged { width, height },
        ),
        WindowMessage::LeftButtonDown => (
            state,
            WindowAction::PointerPressed { is_right_button: false, is_eraser: false },
        ),
        WindowMessage::RightButtonDown => (
            state,
            WindowAction::PointerPressed { is_right_button: true, is_eraser: false },
        ),
        WindowMessage::HotKey { window_rect, monitor_rect } => if state.is_fullscreen {
            (
                WindowState { is_fullscreen: false, ..state },
                WindowAction::LeaveFullscreen { placement: state.last_rect.placement_of() },
            )
        } else {
            (
                WindowState { is_fullscreen: true, last_rect: window_rect, ..state },
                WindowAction::EnterFullscreen { placement: monitor_rect.placement_of() },
            )
        },
        WindowMessage::Other => (state, WindowAction::Default),
    }
}

impl WindowState {
    /// The state of a new window: open, not resized, not full screen, with
    /// an all-zero saved rectangle.
    pub fn new() -> (state: Self)
        ensures
            state == (WindowState {
                is_closed: false,
                resized: false,
                is_fullscreen: false,
                last_rect: Rect { left: 0, top: 0, right: 0, bottom: 0 },
            }),
    {
        WindowState { is_closed: false, resized: false, is_fullscreen: false, last_rect: Rect::zero() }
    }

    /// Whether `message` can be handled in this state (see `message_fits`).
    pub fn handles(&self, message: &WindowMessage) -> (b: bool)
        ensures
            b == message_fits(*self, *message),
    {
        match message {
            WindowMessage::HotKey { window_rect, monitor_rect } => if self.is_fullscreen {
                self.last_rect.fits()
            } else {
                monitor_rect.fits()
            },
            _ => true,
        }
    }

    /// Handles a window message: updates the state and says what the window
    /// must do.
    pub fn message_handler(&mut self, message: &WindowMessage) -> (action: WindowAction)
        requires
            message_fits(*old(self), *message),
        ensures
            (*final(self), action) == step(*old(self), *message),
            !(*message is HotKey) ==> final(self).is_fullscreen == old(self).is_fullscreen
                && final(self).last_rect == old(self).last_rect,
    {
        proof {
            lemma_only_hot_key_toggles(*old(self), *message);
        }
        match message {
            WindowMessage::Destroy => {
                self.is_closed = true;
                WindowAction::Quit
            },
            WindowMessage::MouseMove { lparam } => {
                let (x, y) = get_mouse_position(*lparam);
                WindowAction::PointerMoved { x, y }
            },
            WindowMessage::Size { width, height } => {
                self.resized = true;
                WindowAction::ParentSizeChanged { width: *width, height: *height }
            },
            WindowMessage::LeftButtonDown => WindowAction::PointerPressed {
                is_right_button: false,
                is_eraser: false,
            },
            WindowMessage::RightButtonDown => WindowAction::PointerPressed {
                is_right_button: true,
                is_eraser: false,
            },
            WindowMessage::HotKey { window_rect, monitor_rect } => {
                self.is_fullscreen = !self.is_fullscreen;
                if self.is_fullscreen {
                    self.last_rect = *window_rect;
                    WindowAction::EnterFullscreen { placement: monitor_rect.placement() }
                } else {
                    WindowAction::LeaveFullscreen { placement: self.last_rect.placement() }
                }
            },
            WindowMessage::Other => WindowAction::Default,
        }
    }
}

/// Pressing the full-screen hot key twice brings the window back: the
/// first press saves where the window stood and fills its monitor, the
/// second puts it back where it stood and leaves the state as it was but
/// for the saved rectangle. Both presses can be handled, and every other
/// part of the state is kept.
pub proof fn lemma_fullscreen_round_trip(
    state: WindowState,
    window_rect: Rect,
    monitor_rect: Rect,
    later_window_rect: Rect,
    later_monitor_rect: Rect,
)
    requires
        !state.is_fullscreen,
        window_rect.extents_fit(),
        monitor_rect.extents_fit(),
    ensures
        ({
            let first = WindowMessage::HotKey { window_rect, monitor_rect };
            let second = WindowMessage::HotKey {
                window_rect: later_window_rect,
                monitor_rect: later_monitor_rect,
            };
            let (middle, enter) = step(state, first);
            let (end, leave) = step(middle, second);
            &&& message_fits(state, first)
            &&& message_fits(middle, second)
            &&& enter == WindowAction::EnterFullscreen { placement: monitor_rect.placement_of() }
            &&& middle.is_fullscreen
            &&& leave == WindowAction::LeaveFullscreen { placement: window_rect.placement_of() }
            &&& end == WindowState { last_rect: window_rect, ..state }
        }),
{
}

/// Only the destroy message stops the default window procedure: every
/// other message goes on to it.
pub proof fn lemma_default_processing(state: WindowState, message: WindowMessage)
    ensures
        step(state, message).1.passes_to_default() <==> !(message is Destroy),
{
}

/// A destroyed window stays destroyed, and the destroy message always marks
/// the window destroyed.
pub proof fn lemma_closed_stays_closed(state: WindowState, message: WindowMessage)
    ensures
        state.is_closed ==> step(state, message).0.is_closed,
        message is Destroy ==> step(state, message).0.is_closed,
{
}

/// The closed and resized flags are never cleared, and the saved rectangle
/// changes only when the window enters full screen.
pub proof fn lemma_flags_and_saved_rect(state: WindowState, message: WindowMessage)
    ensures
        state.is_closed ==> step(state, message).0.is_closed,
        state.resized ==> step(state, message).0.resized,
        step(state, message).0.last_rect != state.last_rect ==> message is HotKey
            && !state.is_fullscreen && step(state, message).0.is_fullscreen,
{
}

/// The full-screen state and the saved rectangle change only on the hot
/// key: every other message (resizes among them) keeps both.
pub proof fn lemma_only_hot_key_toggles(state: WindowState, message: WindowMessage)
    ensures
        !(message is HotKey) ==> step(state, message).0.is_fullscreen == state.is_fullscreen
            && step(state, message).0.last_rect == state.last_rect,
        message is HotKey ==> step(state, message).0.is_fullscreen == !state.is_fullscreen,
{
}

/// The state after the messages `messages`, handled in order.
pub open spec fn run(state: WindowState, messages: Seq<WindowMessage>) -> WindowState
    decreases messages.len(),
{
    if messages.len() == 0 {
        state
    } else {
        run(step(state, messages[0]).0, messages.drop_first())
    }
}

/// Messages other than the hot key, in any number, keep the full-screen
/// state and the saved rectangle.
pub proof fn lemma_run_without_hot_key(state: WindowState, messages: Seq<WindowMessage>)
    requires
        forall|i: int| 0 <= i < messages.len() ==> !(#[trigger] messages[i] is HotKey),
    ensures
        run(state, messages).is_fullscreen == state.is_fullscreen,
        run(state, messages).last_rect == state.last_rect,
    decreases messages.len(),
{
    if messages.len() > 0 {
        lemma_only_hot_key_toggles(state, messages[0]);
        let rest = messages.drop_first();
        assert forall|i: int| 0 <= i < rest.len() implies !(#[trigger] rest[i] is HotKey) by {
            assert(rest[i] == messages[i + 1]);
        }
        lemma_run_without_hot_key(step(state, messages[0]).0, rest);
    }
}

/// Alt+Enter, then any messages but the hot key (such as the resize that
/// going full screen causes), then Alt+Enter again puts the window back
/// where it stood before the first press, and leaves full screen.
pub proof fn lemma_hot_key_pair_restores(
    state: WindowState,
    window_rect: Rect,
    monitor_rect: Rect,
    between: Seq<WindowMessage>,
    later: WindowMessage,
)
    requires
        !state.is_fullscreen,
        later is HotKey,
        forall|i: int| 0 <= i < between.len() ==> !(#[trigger] between[i] is HotKey),
    ensures
        ({
            let entered = step(state, WindowMessage::HotKey { window_rect, monitor_rect }).0;
            let waited = run(entered, between);
            let (left, action) = step(waited, later);
            &&& entered.is_fullscreen
            &&& waited.is_fullscreen
            &&& waited.last_rect == window_rect
            &&& action == WindowAction::LeaveFullscreen { placement: window_rect.placement_of() }
            &&& !left.is_fullscreen
            &&& left.last_rect == window_rect
        }),
{
    let entered = step(state, WindowMessage::HotKey { window_rect, monitor_rect }).0;
    lemma_run_without_hot_key(entered, between);
}

} // verus!
