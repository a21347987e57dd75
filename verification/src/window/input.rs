//! Cached input state: the last key and mouse-button states the platform
//! thread published, readable from the window handle without touching the
//! native resource.
use vstd::prelude::*;

verus! {

/// Virtual-key code of the Shift modifier.
pub const VK_SHIFT: u16 = 0x10;

/// Virtual-key code of the Control modifier.
pub const VK_CONTROL: u16 = 0x11;

/// Virtual-key code of the Alt (menu) modifier.
pub const VK_MENU: u16 = 0x12;

/// Virtual-key code of the left system (logo) key.
pub const VK_LWIN: u16 = 0x5B;

/// Number of virtual-key codes the cached table covers.
pub const KEY_TABLE_LEN: usize = 256;

/// Number of slots in the cached mouse-button table.
pub const BUTTON_TABLE_LEN: usize = 6;

/// A logical key, identified by the virtual-key code the platform's
/// scan-code translation reported for it.
#[derive(Clone, Copy, Debug, PartialEq, Eq, Structural)]
pub struct Key {
    pub code: u16,
}

/// State of one key. `Held` carries the repeat count the native message
/// reported.
#[derive(Clone, Copy, Debug, PartialEq, Eq, Structural)]
pub enum KeyState {
    Released,
    Pressed,
    Held(u16),
}

/// State of one mouse button.
#[derive(Clone, Copy, Debug, PartialEq, Eq, Structural)]
pub enum ButtonState {
    Released,
    Pressed,
}

/// A mouse button. Native codes outside the five known buttons map to
/// `Unknown`.
#[derive(Clone, Copy, Debug, PartialEq, Eq, Structural)]
pub enum Mouse {
    Left,
    Middle,
    Right,
    Back,
    Forward,
    Unknown,
}

impl Mouse {
    /// Slot of this button in the cached button table.
    pub open spec fn spec_index(self) -> int {
        match self {
            Mouse::Left => 0,
            Mouse::Middle => 1,
            Mouse::Right => 2,
            Mouse::Back => 3,
            Mouse::Forward => 4,
            Mouse::Unknown => 5,
        }
    }

    /// Executable form of [`Mouse::spec_index`].
    pub fn table_index(self) -> (r: usize)
        ensures
            r == self.spec_index(),
    {
        match self {
            Mouse::Left => 0,
            Mouse::Middle => 1,
            Mouse::Right => 2,
            Mouse::Back => 3,
            Mouse::Forward => 4,
            Mouse::Unknown => 5,
        }
    }
}

/// The cached input table: one state per virtual-key code and one per mouse
/// button. Written by the platform thread as it publishes input messages,
/// read by the handle's getters.
#[derive(Clone, Debug)]
pub struct Input {
    keys: Vec<KeyState>,
    buttons: Vec<ButtonState>,
}

impl Input {
    /// The tables have their fixed lengths.
    pub closed spec fn wf(self) -> bool {
        &&& self.keys@.len() == KEY_TABLE_LEN
        &&& self.buttons@.len() == BUTTON_TABLE_LEN
    }

    /// State recorded for a virtual-key code; codes outside the table read
    /// as released.
    pub closed spec fn spec_key(self, code: u16) -> KeyState {
        if code < KEY_TABLE_LEN {
            self.keys@[code as int]
        } else {
            KeyState::Released
        }
    }

    /// State recorded for a mouse button.
    pub closed spec fn spec_mouse(self, button: Mouse) -> ButtonState {
        self.buttons@[button.spec_index()]
    }

    /// A fresh table: every key and button released.
    pub fn new() -> (r: Self)
        ensures
            r.wf(),
            forall|code: u16| r.spec_key(code) == KeyState::Released,
            forall|b: Mouse| r.spec_mouse(b) == ButtonState::Released,
    {
        let mut keys: Vec<KeyState> = Vec::new();
        let mut i: usize = 0;
        while i < KEY_TABLE_LEN
            invariant
                i <= KEY_TABLE_LEN,
                keys@.len() == i,
                forall|j: int| 0 <= j < i ==> keys@[j] == KeyState::Released,
            decreases KEY_TABLE_LEN - i,
        {
            keys.push(KeyState::Released);
            i += 1;
        }
        let mut buttons: Vec<ButtonState> = Vec::new();
        let mut i: usize = 0;
        while i < BUTTON_TABLE_LEN
            invariant
                i <= BUTTON_TABLE_LEN,
                buttons@.len() == i,
                forall|j: int| 0 <= j < i ==> buttons@[j] == ButtonState::Released,
            decreases BUTTON_TABLE_LEN - i,
        {
            buttons.push(ButtonState::Released);
            i += 1;
        }
        Input { keys, buttons }
    }

    /// Reads the cached state of one key.
    pub fn key(&self, keycode: Key) -> (r: KeyState)
        requires
            self.wf(),
        ensures
            r == self.spec_key(keycode.code),
    {
        if (keycode.code as usize) < KEY_TABLE_LEN {
            self.keys[keycode.code as usize]
        } else {
            KeyState::Released
        }
    }

    /// Reads the cached state of one mouse button.
    pub fn mouse(&self, button: Mouse) -> (r: ButtonState)
        requires
            self.wf(),
        ensures
            r == self.spec_mouse(button),
    {
        self.buttons[button.table_index()]
    }

    /// Cached state of the Shift modifier.
    pub fn shift(&self) -> (r: KeyState)
        requires
            self.wf(),
        ensures
            r == self.spec_key(VK_SHIFT),
    {
        self.key(Key { code: VK_SHIFT })
    }

    /// Cached state of the Control modifier.
    pub fn ctrl(&self) -> (r: KeyState)
        requires
            self.wf(),
        ensures
            r == self.spec_key(VK_CONTROL),
    {
        self.key(Key { code: VK_CONTROL })
    }

    /// Cached state of the Alt modifier.
    pub fn alt(&self) -> (r: KeyState)
        requires
            self.wf(),
        ensures
            r == self.spec_key(VK_MENU),
    {
        self.key(Key { code: VK_MENU })
    }

    /// Cached state of the left system key.
    pub fn win(&self) -> (r: KeyState)
        requires
            self.wf(),
        ensures
            r == self.spec_key(VK_LWIN),
    {
        self.key(Key { code: VK_LWIN })
    }

    /// Records the state of one key; codes outside the table are ignored.
    pub fn update_key(&mut self, keycode: Key, state: KeyState)
        requires
            old(self).wf(),
        ensures
            final(self).wf(),
            forall|c: u16|
                final(self).spec_key(c) == if c == keycode.code && c < KEY_TABLE_LEN {
                    state
                } else {
                    old(self).spec_key(c)
                },
            forall|b: Mouse| final(self).spec_mouse(b) == old(self).spec_mouse(b),
    {
        if (keycode.code as usize) < KEY_TABLE_LEN {
            self.keys.set(keycode.code as usize, state);
        }
    }

    /// Records the state of one mouse button.
    pub fn update_mouse(&mut self, button: Mouse, state: ButtonState)
        requires
            old(self).wf(),
        ensures
            final(self).wf(),
            forall|b: Mouse|
                final(self).spec_mouse(b) == if b == button {
                    state
                } else {
                    old(self).spec_mouse(b)
                },
            forall|c: u16| final(self).spec_key(c) == old(self).spec_key(c),
    {
        let idx = button.table_index();
        self.buttons.set(idx, state);
    }
}

} // verus!
