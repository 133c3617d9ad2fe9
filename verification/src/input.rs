//! Per-frame input-state tracking with edge-triggered press / hold / release
//! semantics.

use vstd::prelude::*;

use crate::state_map::{aged_map, StateMap};

verus! {

/// Keyboard modifiers.
#[derive(Clone, Copy, Debug, PartialEq, Eq, Structural)]
pub struct KeyMods {
    /// Left "shift" key.
    pub lshift: bool,
    /// Right "shift" key.
    pub rshift: bool,
    /// Left "alt" key.
    pub lalt: bool,
    /// Right "alt" key.
    pub ralt: bool,
    /// Left "control" key.
    pub lcontrol: bool,
    /// Right "control" key.
    pub rcontrol: bool,
    /// Left "super" key. This is the "windows" key on PC and "command" key on Mac.
    pub lsuper: bool,
    /// Right "super" key. This is the "windows" key on PC and "command" key on Mac.
    pub rsuper: bool,
}

/// The modifier snapshot with no key held.
pub open spec fn no_mods() -> KeyMods {
    KeyMods {
        lshift: false,
        rshift: false,
        lalt: false,
        ralt: false,
        lcontrol: false,
        rcontrol: false,
        lsuper: false,
        rsuper: false,
    }
}

impl Default for KeyMods {
    /// The snapshot with no modifier held.
    fn default() -> (result: Self)
        ensures
            result == no_mods(),
    {
        KeyMods {
            lshift: false,
            rshift: false,
            lalt: false,
            ralt: false,
            lcontrol: false,
            rcontrol: false,
            lsuper: false,
            rsuper: false,
        }
    }
}

/// Input state of a mouse button/keyboard key.
#[derive(Clone, Copy, Debug, PartialEq, Eq, Hash, Structural)]
pub enum InputState {
    /// The button has just been pressed.
    Pressed,
    /// The button is being held down.
    Down,
    /// The button has just been released.
    ///
    /// Note that it means that the key has **just** been released, **not**
    /// that it isn't held.
    Released,
}

impl InputState {
    /// The state is [`InputState::Pressed`].
    pub fn is_pressed(&self) -> (result: bool)
        ensures
            result == (*self == InputState::Pressed),
    {
        matches!(self, InputState::Pressed)
    }

    /// The state is [`InputState::Pressed`] or [`InputState::Down`].
    pub fn is_any_down(&self) -> (result: bool)
        ensures
            result == (*self == InputState::Pressed || *self == InputState::Down),
    {
        matches!(self, InputState::Pressed | InputState::Down)
    }

    /// The state is [`InputState::Released`].
    pub fn is_released(&self) -> (result: bool)
        ensures
            result == (*self == InputState::Released),
    {
        matches!(self, InputState::Released)
    }
}

/// The mathematical state of an [`Input`] tracker: one map per key space,
/// the modifier snapshot, and the last mouse coordinates seen.
pub ghost struct InputModel {
    /// Current keyboard modifiers.
    pub mods: KeyMods,
    /// States of physical keys, by key code.
    pub keys: Map<u32, InputState>,
    /// States of logical keys, by key code.
    pub logical_keys: Map<u32, InputState>,
    /// States of mouse buttons, by button code.
    pub mouse_buttons: Map<u32, InputState>,
    /// Last reported cursor position, as two opaque 32-bit coordinates.
    pub mouse_pos: (u32, u32),
    /// Last reported scroll delta, as two opaque 32-bit coordinates.
    pub mouse_scroll: (u32, u32),
}

/// The state of a tracker that has seen nothing, and of one that was reset.
pub open spec fn cleared_model() -> InputModel {
    InputModel {
        mods: no_mods(),
        keys: Map::empty(),
        logical_keys: Map::empty(),
        mouse_buttons: Map::empty(),
        mouse_pos: (0u32, 0u32),
        mouse_scroll: (0u32, 0u32),
    }
}

/// A key code has just been pressed in a map.
pub open spec fn spec_pressed(m: Map<u32, InputState>, key: u32) -> bool {
    m.dom().contains(key) && m[key] == InputState::Pressed
}

/// A key code is held in a map: just pressed or held down. A key in state
/// `Released` is not down.
pub open spec fn spec_down(m: Map<u32, InputState>, key: u32) -> bool {
    m.dom().contains(key) && (m[key] == InputState::Pressed || m[key] == InputState::Down)
}

/// A key code has just been released in a map.
pub open spec fn spec_released(m: Map<u32, InputState>, key: u32) -> bool {
    m.dom().contains(key) && m[key] == InputState::Released
}

/// One abstract input event, already decoded by the host from its windowing
/// system. Key codes of all three key spaces are 32-bit values chosen by the
/// host's adapter; mouse coordinates are opaque 32-bit values that the
/// tracker stores and returns unchanged (a host measuring in floating point
/// can pass the bit patterns).
#[derive(Clone, Copy, Debug)]
pub enum InputEvent {
    /// A keyboard key changed state.
    Key {
        /// Physical key code.
        key: u32,
        /// Logical key code, if the host distinguishes one.
        logical_key: Option<u32>,
        /// Whether the operating system emitted this as a key repeat.
        repeat: bool,
        /// The new state; an event source never delivers `Down` here.
        state: InputState,
    },
    /// The whole modifier snapshot was replaced.
    Modifiers(KeyMods),
    /// The cursor moved to an absolute position.
    MouseMoved(u32, u32),
    /// A mouse button changed state.
    MouseButton {
        /// Button code.
        button: u32,
        /// The new state; an event source never delivers `Down` here.
        state: InputState,
    },
    /// The wheel scrolled by a delta. The tracker stores only the last delta
    /// seen; it does not accumulate.
    MouseScroll(u32, u32),
}

/// What ingesting one event does to the tracker's state. A key event marked
/// as a repeat changes nothing: the tracker's own aging is the sole source of
/// the `Down` state, so repeats must not re-trigger a `Pressed` edge.
pub open spec fn processed(m: InputModel, event: InputEvent) -> InputModel {
    match event {
        InputEvent::Modifiers(mods) => InputModel { mods, ..m },
        InputEvent::Key { key, logical_key, repeat, state } => {
            if repeat {
                m
            } else {
                InputModel {
                    keys: m.keys.insert(key, state),
                    logical_keys: match logical_key {
                        Some(logical_key) => m.logical_keys.insert(logical_key, state),
                        None => m.logical_keys,
                    },
                    ..m
                }
            }
        },
        InputEvent::MouseButton { button, state } => InputModel {
            mouse_buttons: m.mouse_buttons.insert(button, state),
            ..m
        },
        InputEvent::MouseMoved(x, y) => InputModel { mouse_pos: (x, y), ..m },
        InputEvent::MouseScroll(x, y) => InputModel { mouse_scroll: (x, y), ..m },
    }
}

/// What one end-of-frame aging pass does to the tracker's state: each of the
/// three maps is aged independently, everything else stays.
pub open spec fn aged_model(m: InputModel) -> InputModel {
    InputModel {
        keys: aged_map(m.keys),
        logical_keys: aged_map(m.logical_keys),
        mouse_buttons: aged_map(m.mouse_buttons),
        ..m
    }
}

/// Input handler.
///
/// Feed it events with [`Input::process_event`], call
/// [`Input::update_keys`] once per frame after event processing, and read
/// states with the query accessors.
#[derive(Debug)]
pub struct Input {
    mods: KeyMods,
    keys: StateMap,
    logical_keys: StateMap,
    mouse_buttons: StateMap,
    mouse_pos: (u32, u32),
    mouse_scroll: (u32, u32),
}

impl View for Input {
    type V = InputModel;

    closed spec fn view(&self) -> InputModel {
        InputModel {
            mods: self.mods,
            keys: self.keys@,
            logical_keys: self.logical_keys@,
            mouse_buttons: self.mouse_buttons@,
            mouse_pos: self.mouse_pos,
            mouse_scroll: self.mouse_scroll,
        }
    }
}

impl Input {
    /// A tracker that has seen nothing.
    pub fn new() -> (result: Self)
        ensures
            result@ == cleared_model(),
    {
        Self {
            mods: KeyMods::default(),
            keys: StateMap::new(),
            logical_keys: StateMap::new(),
            mouse_buttons: StateMap::new(),
            mouse_pos: (0, 0),
            mouse_scroll: (0, 0),
        }
    }

    /// Forget everything: wipe all three maps, reset the modifiers, zero the
    /// mouse position and scroll. Used when input focus is lost or the
    /// tracker must be resynchronized.
    pub fn clear(&mut self)
        ensures
            final(self)@ == cleared_model(),
    {
        self.mods = KeyMods::default();
        self.keys.clear();
        self.logical_keys.clear();
        self.mouse_buttons.clear();
        self.mouse_pos = (0, 0);
        self.mouse_scroll = (0, 0);
    }

    /// Mouse cursor position: the last one reported, as opaque 32-bit
    /// coordinates.
    pub fn mouse_pos(&self) -> (result: (u32, u32))
        ensures
            result == self@.mouse_pos,
    {
        self.mouse_pos
    }

    /// Mouse scroll delta: the last one reported, as opaque 32-bit
    /// coordinates.
    pub fn mouse_scroll(&self) -> (result: (u32, u32))
        ensures
            result == self@.mouse_scroll,
    {
        self.mouse_scroll
    }

    /// Get current keyboard modifiers.
    pub fn key_mods(&self) -> (result: KeyMods)
        ensures
            result == self@.mods,
    {
        self.mods
    }

    /// All input states of physical keys.
    pub fn keys(&self) -> (result: &StateMap)
        ensures
            result@ == self@.keys,
    {
        &self.keys
    }

    /// Returns `true` if a physical key has just been pressed.
    pub fn is_key_pressed(&self, scancode: u32) -> (result: bool)
        ensures
            result == spec_pressed(self@.keys, scancode),
    {
        match self.keys.get(scancode) {
            Some(state) => state.is_pressed(),
            None => false,
        }
    }

    /// Returns `true` if a physical key is down.
    pub fn is_key_down(&self, scancode: u32) -> (result: bool)
        ensures
            result == spec_down(self@.keys, scancode),
    {
        match self.keys.get(scancode) {
            Some(state) => state.is_any_down(),
            None => false,
        }
    }

    /// Returns `true` if a physical key has just been released.
    pub fn is_key_released(&self, scancode: u32) -> (result: bool)
        ensures
            result == spec_released(self@.keys, scancode),
    {
        match self.keys.get(scancode) {
            Some(state) => state.is_released(),
            None => false,
        }
    }

    /// All input states of logical keys.
    pub fn logical_keys(&self) -> (result: &StateMap)
        ensures
            result@ == self@.logical_keys,
    {
        &self.logical_keys
    }

    /// Returns `true` if a logical key has just been pressed.
    pub fn is_logical_key_pressed(&self, key: u32) -> (result: bool)
        ensures
            result == spec_pressed(self@.logical_keys, key),
    {
        match self.logical_keys.get(key) {
            Some(state) => state.is_pressed(),
            None => false,
        }
    }

    /// Returns `true` if a logical key is down.
    pub fn is_logical_key_down(&self, key: u32) -> (result: bool)
        ensures
            result == spec_down(self@.logical_keys, key),
    {
        match self.logical_keys.get(key) {
            Some(state) => state.is_any_down(),
            None => false,
        }
    }

    /// Returns `true` if a logical key has just been released.
    pub fn is_logical_key_released(&self, key: u32) -> (result: bool)
        ensures
            result == spec_released(self@.logical_keys, key),
    {
        match self.logical_keys.get(key) {
            Some(state) => state.is_released(),
            None => false,
        }
    }

    /// All input states of mouse buttons.
    pub fn mouse_buttons(&self) -> (result: &StateMap)
        ensures
            result@ == self@.mouse_buttons,
    {
        &self.mouse_buttons
    }

    /// Returns `true` if a mouse button has just been pressed.
    pub fn is_mouse_button_pressed(&self, button: u32) -> (result: bool)
        ensures
            result == spec_pressed(self@.mouse_buttons, button),
    {
        match self.mouse_buttons.get(button) {
            Some(state) => state.is_pressed(),
            None => false,
        }
    }

    /// Returns `true` if a mouse button is down.
    pub fn is_mouse_button_down(&self, button: u32) -> (result: bool)
        ensures
            result == spec_down(self@.mouse_buttons, button),
    {
        match self.mouse_buttons.get(button) {
            Some(state) => state.is_any_down(),
            None => false,
        }
    }

    /// Returns `true` if a mouse button has just been released.
    pub fn is_mouse_button_released(&self, button: u32) -> (result: bool)
        ensures
            result == spec_released(self@.mouse_buttons, button),
    {
        match self.mouse_buttons.get(button) {
            Some(state) => state.is_released(),
            None => false,
        }
    }

    /// The end-of-frame aging pass, called once per frame after event
    /// processing: in each of the three maps, `Pressed` entries become
    /// `Down`, `Down` entries stay, `Released` entries are removed.
    pub fn update_keys(&mut self)
        ensures
            final(self)@ == aged_model(old(self)@),
    {
        self.keys.age();
        self.logical_keys.age();
        self.mouse_buttons.age();
    }

    /// Ingest one abstract input event.
    pub fn process_event(&mut self, event: InputEvent)
        ensures
            final(self)@ == processed(old(self)@, event),
    {
        match event {
            InputEvent::Modifiers(mods) => {
                self.mods = mods;
            },
            InputEvent::Key { key, logical_key, repeat, state } => {
                if !repeat {
                    self.keys.set(key, state);

                    if let Some(logical_key) = logical_key {
                        self.logical_keys.set(logical_key, state);
                    }
                }
            },
            InputEvent::MouseButton { button, state } => {
                self.mouse_buttons.set(button, state);
            },
            InputEvent::MouseMoved(mouse_x, mouse_y) => {
                self.mouse_pos = (mouse_x, mouse_y);
            },
            InputEvent::MouseScroll(scroll_x, scroll_y) => {
                self.mouse_scroll = (scroll_x, scroll_y);
            },
        }
    }
}

/// Law: after a reset, every query answers its default: no key code of any
/// key space is pressed, down or released, no modifier is held, and the mouse
/// position and scroll are zero.
pub proof fn lemma_clear_resets_queries(key: u32)
    ensures
        !spec_pressed(cleared_model().keys, key),
        !spec_down(cleared_model().keys, key),
        !spec_released(cleared_model().keys, key),
        !spec_pressed(cleared_model().logical_keys, key),
        !spec_down(cleared_model().logical_keys, key),
        !spec_released(cleared_model().logical_keys, key),
        !spec_pressed(cleared_model().mouse_buttons, key),
        !spec_down(cleared_model().mouse_buttons, key),
        !spec_released(cleared_model().mouse_buttons, key),
        cleared_model().mods == no_mods(),
        cleared_model().mouse_pos == (0u32, 0u32),
        cleared_model().mouse_scroll == (0u32, 0u32),
{
}

/// Law: a key event marked as a repeat leaves the tracker's state exactly as
/// it was; in particular a held key aged to `Down` is not reset to `Pressed`.
pub proof fn lemma_repeat_suppressed(
    m: InputModel,
    key: u32,
    logical_key: Option<u32>,
    state: InputState,
)
    ensures
        processed(m, InputEvent::Key { key, logical_key, repeat: true, state }) == m,
{
}

/// Law: aging realizes the edge-triggered semantics. After an aging pass no
/// key code is in a just-pressed or just-released state, and exactly the key
/// codes that were down before (pressed or held) are still down.
pub proof fn lemma_age_settles_states(m: Map<u32, InputState>, key: u32)
    ensures
        !spec_pressed(aged_map(m), key),
        !spec_released(aged_map(m), key),
        spec_down(aged_map(m), key) <==> spec_down(m, key),
{
}

/// Law: a key code in the just-released state is not down.
pub proof fn lemma_released_not_down(m: Map<u32, InputState>, key: u32)
    ensures
        spec_released(m, key) ==> !spec_down(m, key),
{
}

} // verus!
