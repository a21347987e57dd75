//! Translation of raw native window messages into abstract [`Message`]
//! values, and the message value itself.
//!
//! Decoding is a pure function of the raw message fields, with one
//! exception: translating a keyboard scan code into a virtual-key code is a
//! platform lookup. The caller performs that lookup (see [`KeyLookup`]) and
//! hands the two possible results in; everything decided from them is
//! verified here.
use vstd::prelude::*;

use crate::window::input::{ButtonState, Key, KeyState, Mouse};
use crate::window::state::Size;
use crate::{spec_hi_word, spec_lo_byte, spec_lo_word, spec_signed_hi_word, spec_signed_lo_word};
use crate::{hi_word, lo_byte, lo_word, signed_hi_word, signed_lo_word};

verus! {

/// Native message code: the window was asked to close.
pub const WM_CLOSE: u32 = 0x0010;

/// Native message code: the window is being destroyed.
pub const WM_DESTROY: u32 = 0x0002;

/// Native message code: the window's non-client area is gone; destruction
/// is complete.
pub const WM_NCDESTROY: u32 = 0x0082;

/// Native message code: the window must repaint.
pub const WM_PAINT: u32 = 0x000F;

/// Native message code: the client area was resized.
pub const WM_SIZE: u32 = 0x0005;

/// Native message code: the window was moved or resized in the Z-order.
pub const WM_WINDOWPOSCHANGED: u32 = 0x0047;

/// First native message code of the keyboard range.
pub const WM_KEYFIRST: u32 = 0x0100;

/// Last native message code of the keyboard range.
pub const WM_KEYLAST: u32 = 0x0109;

/// Native message code: the cursor moved over the client area.
pub const WM_MOUSEMOVE: u32 = 0x0200;

/// Native message code: left mouse button pressed.
pub const WM_LBUTTONDOWN: u32 = 0x0201;

/// Native message code: left mouse button released.
pub const WM_LBUTTONUP: u32 = 0x0202;

/// Native message code: left mouse button double-clicked.
pub const WM_LBUTTONDBLCLK: u32 = 0x0203;

/// Native message code: right mouse button pressed.
pub const WM_RBUTTONDOWN: u32 = 0x0204;

/// Native message code: right mouse button released.
pub const WM_RBUTTONUP: u32 = 0x0205;

/// Native message code: right mouse button double-clicked.
pub const WM_RBUTTONDBLCLK: u32 = 0x0206;

/// Native message code: middle mouse button pressed.
pub const WM_MBUTTONDOWN: u32 = 0x0207;

/// Native message code: middle mouse button released.
pub const WM_MBUTTONUP: u32 = 0x0208;

/// Native message code: middle mouse button double-clicked.
pub const WM_MBUTTONDBLCLK: u32 = 0x0209;

/// Native message code: vertical mouse wheel.
pub const WM_MOUSEWHEEL: u32 = 0x020A;

/// Native message code: extra mouse button pressed.
pub const WM_XBUTTONDOWN: u32 = 0x020B;

/// Native message code: extra mouse button released.
pub const WM_XBUTTONUP: u32 = 0x020C;

/// Native message code: extra mouse button double-clicked.
pub const WM_XBUTTONDBLCLK: u32 = 0x020D;

/// Native message code: horizontal mouse wheel.
pub const WM_MOUSEHWHEEL: u32 = 0x020E;

/// Keyboard flag: the key is an extended key.
pub const KF_EXTENDED: u16 = 0x0100;

/// Keyboard flag: the key was already down before this message.
pub const KF_REPEAT: u16 = 0x4000;

/// Keyboard flag: the key is being released.
pub const KF_UP: u16 = 0x8000;

/// Mouse-key flag: left button is down.
pub const MK_LBUTTON: u32 = 0x0001;

/// Mouse-key flag: right button is down.
pub const MK_RBUTTON: u32 = 0x0002;

/// Mouse-key flag: middle button is down.
pub const MK_MBUTTON: u32 = 0x0010;

/// Mouse-key flag: first extra button is down.
pub const MK_XBUTTON1: u32 = 0x0020;

/// Mouse-key flag: second extra button is down.
pub const MK_XBUTTON2: u32 = 0x0040;

/// High-word flag naming the first extra mouse button.
pub const XBUTTON1: u16 = 0x0001;

/// One native wheel detent, in the raw units [`WindowMessage::Scroll`]
/// carries.
pub const WHEEL_DELTA: i16 = 120;

/// An abstract window event, as delivered to the application.
#[derive(Clone, Copy, Debug, PartialEq, Eq, Structural)]
pub enum Message {
    /// The empty placeholder: no message was ready.
    Empty,
    /// A translated window event.
    Window(WindowMessage),
    /// A native message with no translation; the raw fields are carried
    /// through rather than dropped.
    Unidentified { hwnd: isize, message: u32, wparam: usize, lparam: isize },
}

/// The translated window events.
#[derive(Clone, Copy, Debug, PartialEq, Eq, Structural)]
pub enum WindowMessage {
    /// The user asked the window to close (programmatic closes do not
    /// produce this).
    CloseRequested,
    /// The window is closing; teardown has begun.
    Closing,
    /// The native resource is gone.
    Closed,
    /// The native loop has ended.
    Quit,
    /// The window must repaint.
    Draw,
    /// A key changed state.
    Key { key: Key, state: KeyState, scan_code: u16, is_extended_key: bool },
    /// A mouse button changed state.
    MouseButton { button: Mouse, state: ButtonState, x: i16, y: i16, is_double_click: bool },
    /// The cursor moved, to client coordinates `(x, y)`.
    Cursor { x: i16, y: i16 },
    /// The wheel scrolled. `x` and `y` are raw deltas in units of
    /// [`WHEEL_DELTA`] per detent.
    Scroll { x: i16, y: i16 },
    /// The client area was resized.
    Resized(Size),
    /// The window was moved.
    Moved,
}

impl Default for Message {
    fn default() -> (r: Self)
        ensures
            r == Message::Empty,
    {
        Message::Empty
    }
}

/// The two results of the platform's scan-code to virtual-key translation
/// for one keyboard message: one for the plain scan code, one for the
/// extended (`0xE0`-prefixed) scan code. The caller queries the platform
/// for both (see [`keyboard_scan_code`] and [`keyboard_extended_scan_code`])
/// and the decoder decides which applies.
#[derive(Clone, Copy, Debug, PartialEq, Eq, Structural)]
pub struct KeyLookup {
    /// Virtual-key code the platform reports for the plain scan code;
    /// zero when it reports none.
    pub virtual_key: u16,
    /// Virtual-key code the platform reports for the extended scan code;
    /// zero when it reports none.
    pub extended_virtual_key: u16,
}

/// The plain scan code carried in a keyboard message's `lparam`.
pub open spec fn spec_keyboard_scan_code(l_param: isize) -> u16 {
    spec_lo_byte(spec_hi_word(l_param as u32)) as u16
}

/// The extended form of a scan code: the same code behind an `0xE0` prefix.
pub open spec fn spec_keyboard_extended_scan_code(scan_code: u16) -> u16 {
    0xE000u16 | scan_code
}

/// Extracts the plain scan code from a keyboard message's `lparam`, for the
/// platform lookup that fills [`KeyLookup::virtual_key`].
#[verifier::when_used_as_spec(spec_keyboard_scan_code)]
pub fn keyboard_scan_code(l_param: isize) -> (r: u16)
    ensures
        r == spec_keyboard_scan_code(l_param),
{
    lo_byte(hi_word(l_param as u32)) as u16
}

/// Forms the extended scan code, for the platform lookup that fills
/// [`KeyLookup::extended_virtual_key`].
#[verifier::when_used_as_spec(spec_keyboard_extended_scan_code)]
pub fn keyboard_extended_scan_code(scan_code: u16) -> (r: u16)
    ensures
        r == spec_keyboard_extended_scan_code(scan_code),
{
    0xE000u16 | scan_code
}

/// The decoded form of a keyboard message.
pub open spec fn spec_keyboard_message(l_param: isize, key_map: KeyLookup) -> Message {
    let flags = spec_hi_word(l_param as u32);
    let is_extended_key = flags & KF_EXTENDED == KF_EXTENDED;
    let plain_scan_code = spec_keyboard_scan_code(l_param);
    let uses_extended = key_map.extended_virtual_key != 0 && is_extended_key;
    let key = Key {
        code: if uses_extended {
            key_map.extended_virtual_key
        } else {
            key_map.virtual_key
        },
    };
    let scan_code = if uses_extended {
        spec_keyboard_extended_scan_code(plain_scan_code)
    } else {
        plain_scan_code
    };
    let state = if flags & KF_UP == KF_UP {
        KeyState::Released
    } else if flags & KF_REPEAT == KF_REPEAT {
        KeyState::Held(spec_lo_word(l_param as u32))
    } else {
        KeyState::Pressed
    };
    Message::Window(WindowMessage::Key { key, state, scan_code, is_extended_key })
}

/// Which mouse button a button message names.
pub open spec fn spec_mouse_button_code(message: u32, flags: u32) -> Mouse {
    if message == WM_LBUTTONDBLCLK || message == WM_LBUTTONDOWN || message == WM_LBUTTONUP {
        Mouse::Left
    } else if message == WM_MBUTTONDBLCLK || message == WM_MBUTTONDOWN || message == WM_MBUTTONUP {
        Mouse::Middle
    } else if message == WM_RBUTTONDBLCLK || message == WM_RBUTTONDOWN || message == WM_RBUTTONUP {
        Mouse::Right
    } else if message == WM_XBUTTONDBLCLK || message == WM_XBUTTONDOWN || message == WM_XBUTTONUP {
        if spec_hi_word(flags) & XBUTTON1 == XBUTTON1 {
            Mouse::Back
        } else {
            Mouse::Forward
        }
    } else {
        Mouse::Unknown
    }
}

/// Whether a button message is one of the double-click codes.
pub open spec fn spec_is_double_click(message: u32) -> bool {
    message == WM_LBUTTONDBLCLK || message == WM_MBUTTONDBLCLK || message == WM_RBUTTONDBLCLK
        || message == WM_XBUTTONDBLCLK
}

/// Whether a button message reports the named button as pressed: a down or
/// double-click code whose modifier flags confirm the button is down.
pub open spec fn spec_mouse_button_is_down(message: u32, flags: u32) -> bool {
    ||| (message == WM_LBUTTONDBLCLK || message == WM_LBUTTONDOWN) && flags & MK_LBUTTON
        == MK_LBUTTON
    ||| (message == WM_MBUTTONDBLCLK || message == WM_MBUTTONDOWN) && flags & MK_MBUTTON
        == MK_MBUTTON
    ||| (message == WM_RBUTTONDBLCLK || message == WM_RBUTTONDOWN) && flags & MK_RBUTTON
        == MK_RBUTTON
    ||| (message == WM_XBUTTONDBLCLK || message == WM_XBUTTONDOWN) && (flags & MK_XBUTTON1
        == MK_XBUTTON1 || flags & MK_XBUTTON2 == MK_XBUTTON2)
}

/// The decoded form of a mouse-button message.
pub open spec fn spec_mouse_button_message(message: u32, w_param: usize, l_param: isize) -> Message {
    let flags = w_param as u32;
    let state = if spec_mouse_button_is_down(message, flags) {
        ButtonState::Pressed
    } else {
        ButtonState::Released
    };
    Message::Window(
        WindowMessage::MouseButton {
            button: spec_mouse_button_code(message, flags),
            state,
            x: spec_signed_lo_word(l_param as i32),
            y: spec_signed_hi_word(l_param as i32),
            is_double_click: spec_is_double_click(message),
        },
    )
}

/// Whether a message code is one of the mouse-button codes.
pub open spec fn spec_is_mouse_button_message(message: u32) -> bool {
    message == WM_LBUTTONDBLCLK || message == WM_RBUTTONDBLCLK || message == WM_MBUTTONDBLCLK
        || message == WM_XBUTTONDBLCLK || message == WM_LBUTTONDOWN || message == WM_RBUTTONDOWN
        || message == WM_MBUTTONDOWN || message == WM_XBUTTONDOWN || message == WM_LBUTTONUP
        || message == WM_RBUTTONUP || message == WM_MBUTTONUP || message == WM_XBUTTONUP
}

/// The full decode table: what [`Message::new`] returns for every raw
/// native message.
pub open spec fn spec_decode(
    h_wnd: isize,
    message: u32,
    w_param: usize,
    l_param: isize,
    key_map: KeyLookup,
) -> Message {
    if message == WM_CLOSE {
        Message::Window(WindowMessage::CloseRequested)
    } else if message == WM_DESTROY {
        Message::Window(WindowMessage::Closing)
    } else if message == WM_NCDESTROY {
        Message::Window(WindowMessage::Closed)
    } else if message == WM_PAINT {
        Message::Window(WindowMessage::Draw)
    } else if message == WM_SIZE {
        Message::Window(
            WindowMessage::Resized(
                Size {
                    width: spec_lo_word(l_param as u32) as i32,
                    height: spec_hi_word(l_param as u32) as i32,
                },
            ),
        )
    } else if message == WM_WINDOWPOSCHANGED {
        Message::Window(WindowMessage::Moved)
    } else if WM_KEYFIRST <= message && message <= WM_KEYLAST {
        spec_keyboard_message(l_param, key_map)
    } else if spec_is_mouse_button_message(message) {
        spec_mouse_button_message(message, w_param, l_param)
    } else if message == WM_MOUSEMOVE {
        Message::Window(
            WindowMessage::Cursor {
                x: spec_signed_lo_word(l_param as i32),
                y: spec_signed_hi_word(l_param as i32),
            },
        )
    } else if message == WM_MOUSEWHEEL {
        Message::Window(WindowMessage::Scroll { x: 0, y: spec_signed_hi_word(w_param as i32) })
    } else if message == WM_MOUSEHWHEEL {
        Message::Window(WindowMessage::Scroll { x: spec_signed_hi_word(w_param as i32), y: 0 })
    } else {
        Message::Unidentified { hwnd: h_wnd, message, wparam: w_param, lparam: l_param }
    }
}

impl Message {
    /// Takes the message out, leaving the empty placeholder behind.
    pub fn take(&mut self) -> (r: Message)
        ensures
            r == *old(self),
            *final(self) == Message::Empty,
    {
        let taken = *self;
        *self = Message::Empty;
        taken
    }

    /// Swaps in a new message and returns the previous one.
    pub fn replace(&mut self, message: Message) -> (r: Message)
        ensures
            r == *old(self),
            *final(self) == message,
    {
        let previous = *self;
        *self = message;
        previous
    }

    /// Decodes one raw native message. `key_map` carries the platform's
    /// scan-code translation for the keyboard range; it is ignored for
    /// every other message code.
    pub fn new(
        h_wnd: isize,
        message: u32,
        w_param: usize,
        l_param: isize,
        key_map: KeyLookup,
    ) -> (r: Message)
        ensures
            r == spec_decode(h_wnd, message, w_param, l_param, key_map),
    {
        if message == WM_CLOSE {
            Message::Window(WindowMessage::CloseRequested)
        } else if message == WM_DESTROY {
            Message::Window(WindowMessage::Closing)
        } else if message == WM_NCDESTROY {
            Message::Window(WindowMessage::Closed)
        } else if message == WM_PAINT {
            Message::Window(WindowMessage::Draw)
        } else if message == WM_SIZE {
            let width = lo_word(l_param as u32) as i32;
            let height = hi_word(l_param as u32) as i32;
            Message::Window(WindowMessage::Resized(Size { width, height }))
        } else if message == WM_WINDOWPOSCHANGED {
            Message::Window(WindowMessage::Moved)
        } else if WM_KEYFIRST <= message && message <= WM_KEYLAST {
            Self::new_keyboard_message(l_param, key_map)
        } else if message == WM_LBUTTONDBLCLK || message == WM_RBUTTONDBLCLK || message
            == WM_MBUTTONDBLCLK || message == WM_XBUTTONDBLCLK || message == WM_LBUTTONDOWN
            || message == WM_RBUTTONDOWN || message == WM_MBUTTONDOWN || message == WM_XBUTTONDOWN
            || message == WM_LBUTTONUP || message == WM_RBUTTONUP || message == WM_MBUTTONUP
            || message == WM_XBUTTONUP {
            Self::new_mouse_button_message(message, w_param, l_param)
        } else if message == WM_MOUSEMOVE {
            let x = signed_lo_word(l_param as i32);
            let y = signed_hi_word(l_param as i32);
            Message::Window(WindowMessage::Cursor { x, y })
        } else if message == WM_MOUSEWHEEL {
            let delta = signed_hi_word(w_param as i32);
            Message::Window(WindowMessage::Scroll { x: 0, y: delta })
        } else if message == WM_MOUSEHWHEEL {
            let delta = signed_hi_word(w_param as i32);
            Message::Window(WindowMessage::Scroll { x: delta, y: 0 })
        } else {
            Message::Unidentified { hwnd: h_wnd, message, wparam: w_param, lparam: l_param }
        }
    }

    /// Decodes a message of the keyboard range.
    fn new_keyboard_message(l_param: isize, key_map: KeyLookup) -> (r: Message)
        ensures
            r == spec_keyboard_message(l_param, key_map),
    {
        let flags = hi_word(l_param as u32);
        let is_extended_key = flags & KF_EXTENDED == KF_EXTENDED;
        let plain_scan_code = keyboard_scan_code(l_param);

        let uses_extended = key_map.extended_virtual_key != 0 && is_extended_key;
        let key = Key {
            code: if uses_extended {
                key_map.extended_virtual_key
            } else {
                key_map.virtual_key
            },
        };
        let scan_code = if uses_extended {
            keyboard_extended_scan_code(plain_scan_code)
        } else {
            plain_scan_code
        };

        let state = if flags & KF_UP == KF_UP {
            KeyState::Released
        } else if flags & KF_REPEAT == KF_REPEAT {
            KeyState::Held(lo_word(l_param as u32))
        } else {
            KeyState::Pressed
        };

        Message::Window(WindowMessage::Key { key, state, scan_code, is_extended_key })
    }

    /// Decodes a mouse-button message.
    fn new_mouse_button_message(message: u32, w_param: usize, l_param: isize) -> (r: Message)
        ensures
            r == spec_mouse_button_message(message, w_param, l_param),
    {
        let flags = w_param as u32;

        let button = if message == WM_LBUTTONDBLCLK || message == WM_LBUTTONDOWN || message
            == WM_LBUTTONUP {
            Mouse::Left
        } else if message == WM_MBUTTONDBLCLK || message == WM_MBUTTONDOWN || message
            == WM_MBUTTONUP {
            Mouse::Middle
        } else if message == WM_RBUTTONDBLCLK || message == WM_RBUTTONDOWN || message
            == WM_RBUTTONUP {
            Mouse::Right
        } else if message == WM_XBUTTONDBLCLK || message == WM_XBUTTONDOWN || message
            == WM_XBUTTONUP {
            if hi_word(flags) & XBUTTON1 == XBUTTON1 {
                Mouse::Back
            } else {
                Mouse::Forward
            }
        } else {
            Mouse::Unknown
        };

        let is_double_click = message == WM_LBUTTONDBLCLK || message == WM_MBUTTONDBLCLK || message
            == WM_RBUTTONDBLCLK || message == WM_XBUTTONDBLCLK;

        let is_down = ((message == WM_LBUTTONDBLCLK || message == WM_LBUTTONDOWN) && flags
            & MK_LBUTTON == MK_LBUTTON) || ((message == WM_MBUTTONDBLCLK || message
            == WM_MBUTTONDOWN) && flags & MK_MBUTTON == MK_MBUTTON) || ((message
            == WM_RBUTTONDBLCLK || message == WM_RBUTTONDOWN) && flags & MK_RBUTTON == MK_RBUTTON)
            || ((message == WM_XBUTTONDBLCLK || message == WM_XBUTTONDOWN) && (flags & MK_XBUTTON1
            == MK_XBUTTON1 || flags & MK_XBUTTON2 == MK_XBUTTON2));

        let state = if is_down {
            ButtonState::Pressed
        } else {
            ButtonState::Released
        };

        let x = signed_lo_word(l_param as i32);
        let y = signed_hi_word(l_param as i32);

        Message::Window(WindowMessage::MouseButton { button, state, x, y, is_double_click })
    }
}

} // verus!
