//! Reaction of the logic thread to window and device input: which keys are
//! held, whether the window has focus, scrolling, and the request to exit.

use vstd::prelude::*;
use crate::pressed_keys::{Key, PressedKeys};

verus! {

/// Physical keys that the game reacts to.
#[derive(PartialEq, Eq, Structural, Copy, Clone, Debug)]
pub enum KeyCode {
    Escape,
    A,
    D,
    W,
    S,
    Q,
    E,
    /// Any other key.
    Other,
}

/// Input events, as the window system reports them.
#[derive(PartialEq, Eq, Structural, Copy, Clone, Debug)]
pub enum InputEvent {
    /// The window was closed.
    Closed,
    /// The window gained (`true`) or lost (`false`) focus.
    Focused(bool),
    /// A key went down (`pressed`) or up.
    Key { code: KeyCode, pressed: bool },
    /// The wheel scrolled by this many steps.
    Scroll(i32),
    /// Anything else.
    Other,
}

/// Something that accumulates scrolling between ticks.
pub trait CameraScroll {
    /// The scrolling accumulated so far.
    spec fn scrolled(&self) -> i32;

    /// Takes the scrolling accumulated since the last call.
    fn take_scroll(&mut self) -> (r: i32)
        ensures
            r == old(self).scrolled(),
            final(self).scrolled() == 0,
    ;
}

/// The logical key that a physical key moves, if any.
pub open spec fn key_for(code: KeyCode) -> Option<Key> {
    match code {
        KeyCode::A => Some(Key::MoveLeft),
        KeyCode::D => Some(Key::MoveRight),
        KeyCode::W => Some(Key::MoveUp),
        KeyCode::S => Some(Key::MoveDown),
        KeyCode::Q => Some(Key::RollLeft),
        KeyCode::E => Some(Key::RollRight),
        _ => None,
    }
}

/// `a + b`, held within `i32`.
pub open spec fn saturating_sum(a: i32, b: i32) -> i32 {
    if a + b > i32::MAX {
        i32::MAX
    } else if a + b < i32::MIN {
        i32::MIN
    } else {
        (a + b) as i32
    }
}

/// What the logic thread knows of the input.
pub struct InputState {
    pressed_keys: PressedKeys,
    focus_update: Option<bool>,
    focused: bool,
    exit: bool,
    scroll: i32,
}

impl InputState {
    pub closed spec fn wf(&self) -> bool {
        self.pressed_keys.wf()
    }

    /// Whether `key` is held down.
    pub closed spec fn is_pressed(&self, key: Key) -> bool {
        self.pressed_keys.is_pressed(key)
    }

    /// A change of focus not yet acted upon.
    pub closed spec fn pending_focus(&self) -> Option<bool> {
        self.focus_update
    }

    /// Whether the window has focus.
    pub closed spec fn has_focus(&self) -> bool {
        self.focused
    }

    /// Whether the game should end.
    pub closed spec fn exit_requested(&self) -> bool {
        self.exit
    }

    /// Scrolling accumulated since it was last taken.
    pub closed spec fn pending_scroll(&self) -> i32 {
        self.scroll
    }

    /// No key held, focused, no pending focus change, no scrolling, no exit.
    pub fn new() -> (r: InputState)
        ensures
            r.wf(),
            forall|k: Key| !r.is_pressed(k),
            r.has_focus(),
            r.pending_focus() is None,
            !r.exit_requested(),
            r.pending_scroll() == 0,
    {
        InputState { pressed_keys: PressedKeys::new(), focus_update: None, focused: true, exit: false, scroll: 0 }
    }

    /// Whether `key` is held down.
    pub fn test(&self, key: Key) -> (r: bool)
        requires
            self.wf(),
        ensures
            r == self.is_pressed(key),
    {
        self.pressed_keys.test(key)
    }

    /// Whether the game should end.
    pub fn exit(&self) -> (r: bool)
        ensures
            r == self.exit_requested(),
    {
        self.exit
    }

    /// Takes the pending focus change and records it as the present focus.
    pub fn take_focus_update(&mut self) -> (r: Option<bool>)
        ensures
            r == old(self).pending_focus(),
            final(self).pending_focus() is None,
            final(self).has_focus() == match r {
                Some(state) => state,
                None => old(self).has_focus(),
            },
            final(self).exit_requested() == old(self).exit_requested(),
            final(self).pending_scroll() == old(self).pending_scroll(),
            final(self).wf() == old(self).wf(),
            forall|k: Key| final(self).is_pressed(k) == old(self).is_pressed(k),
    {
        let update = self.focus_update.take();
        if let Some(state) = update {
            self.focused = state;
        }
        update
    }

    /// Reacts to a key going down or up. Releasing Escape ends the game
    /// when the window has focus; the movement keys are recorded as held or
    /// not; every other key is ignored.
    pub fn handle_device_event(&mut self, code: KeyCode, pressed: bool)
        requires
            old(self).wf(),
        ensures
            final(self).wf(),
            final(self).exit_requested() == (old(self).exit_requested() || (code == KeyCode::Escape && !pressed
                && old(self).has_focus())),
            forall|k: Key|
                final(self).is_pressed(k) == if key_for(code) == Some(k) {
                    pressed
                } else {
                    old(self).is_pressed(k)
                },
            final(self).has_focus() == old(self).has_focus(),
            final(self).pending_focus() == old(self).pending_focus(),
            final(self).pending_scroll() == old(self).pending_scroll(),
    {
        let key = match code {
            KeyCode::Escape => {
                if !pressed && !self.exit {
                    self.exit = self.focused;
                }
                return;
            },
            KeyCode::A => Key::MoveLeft,
            KeyCode::D => Key::MoveRight,
            KeyCode::W => Key::MoveUp,
            KeyCode::S => Key::MoveDown,
            KeyCode::Q => Key::RollLeft,
            KeyCode::E => Key::RollRight,
            KeyCode::Other => {
                return;
            },
        };
        self.pressed_keys.set(key, pressed);
    }

    /// Reacts to one input event: closing the window ends the game, a focus
    /// change is kept until taken, keys go to [`Self::handle_device_event`],
    /// scrolling accumulates (held within `i32`).
    pub fn handle_event(&mut self, event: InputEvent)
        requires
            old(self).wf(),
        ensures
            final(self).wf(),
            match event {
                InputEvent::Closed => final(self).exit_requested() && final(self).pending_focus()
                    == old(self).pending_focus() && final(self).pending_scroll() == old(self).pending_scroll()
                    && forall|k: Key| final(self).is_pressed(k) == old(self).is_pressed(k),
                InputEvent::Focused(state) => final(self).pending_focus() == Some(state)
                    && final(self).exit_requested() == old(self).exit_requested()
                    && final(self).pending_scroll() == old(self).pending_scroll()
                    && forall|k: Key| final(self).is_pressed(k) == old(self).is_pressed(k),
                InputEvent::Key { code, pressed } => final(self).exit_requested() == (old(self).exit_requested()
                    || (code == KeyCode::Escape && !pressed && old(self).has_focus()))
                    && final(self).pending_focus() == old(self).pending_focus()
                    && final(self).pending_scroll() == old(self).pending_scroll()
                    && forall|k: Key|
                    final(self).is_pressed(k) == if key_for(code) == Some(k) {
                        pressed
                    } else {
                        old(self).is_pressed(k)
                    },
                InputEvent::Scroll(amount) => final(self).pending_scroll() == saturating_sum(
                    old(self).pending_scroll(),
                    amount,
                ) && final(self).exit_requested() == old(self).exit_requested()
                    && final(self).pending_focus() == old(self).pending_focus()
                    && forall|k: Key| final(self).is_pressed(k) == old(self).is_pressed(k),
                InputEvent::Other => final(self).exit_requested() == old(self).exit_requested()
                    && final(self).pending_focus() == old(self).pending_focus()
                    && final(self).pending_scroll() == old(self).pending_scroll()
                    && forall|k: Key| final(self).is_pressed(k) == old(self).is_pressed(k),
            },
            final(self).has_focus() == old(self).has_focus(),
    {
        match event {
            InputEvent::Closed => {
                self.exit = true;
            },
            InputEvent::Focused(state) => {
                self.focus_update = Some(state);
            },
            InputEvent::Key { code, pressed } => {
                self.handle_device_event(code, pressed);
            },
            InputEvent::Scroll(amount) => {
                let sum = self.scroll as i64 + amount as i64;
                self.scroll = if sum > i32::MAX as i64 {
                    i32::MAX
                } else if sum < i32::MIN as i64 {
                    i32::MIN
                } else {
                    sum as i32
                };
            },
            InputEvent::Other => {},
        }
    }
}

impl CameraScroll for InputState {
    closed spec fn scrolled(&self) -> i32 {
        self.scroll
    }

    fn take_scroll(&mut self) -> i32 {
        let scroll = self.scroll;
        self.scroll = 0;
        scroll
    }
}

} // verus!
