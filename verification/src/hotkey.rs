//! The hotkey listener: one global shortcut, registered at startup, whose
//! every press asks for one toggle of the managed window.
//!
//! The host owns the registration and the event callback. It reports the
//! outcome of the registration and every shortcut event to the listener, from
//! whatever thread the event arrived on, and does what the listener answers.
//! The listener never touches the window itself.

use vstd::prelude::*;
use crate::visibility::{reveal_actions, reveal_plan, WindowAction, WindowProbe};

verus! {

/// A key combination: the set of modifier keys and the key, by the numbers
/// the host's shortcut subsystem gives them. Two bindings are the same
/// combination exactly when both numbers agree.
#[derive(Clone, Copy, Debug, PartialEq, Eq, Structural)]
pub struct ShortcutBinding {
    pub modifiers: u32,
    pub key: u32,
}

/// The state a shortcut event reports.
#[derive(Clone, Copy, Debug, PartialEq, Eq, Structural)]
pub enum KeyState {
    Pressed,
    Released,
}

/// The global shortcut could not be registered. A launcher without its
/// hotkey is of no use, so the host gives up starting.
#[derive(Debug)]
pub struct StartupError {
    /// What the shortcut subsystem said.
    pub reason: String,
}

/// The listener for the one binding of the process.
#[derive(Clone, Copy, Debug, PartialEq, Eq, Structural)]
pub struct HotkeyListener {
    /// The combination listened for; fixed for the life of the process.
    pub binding: ShortcutBinding,
    /// Whether the binding has been registered with the host.
    pub armed: bool,
    /// Whether the binding is down: its last event was a press.
    pub held: bool,
}

impl HotkeyListener {
    /// Whether an event asks for a toggle: a press of the registered binding
    /// that is not already down. Releases, repeats of a press, and other
    /// combinations do not.
    pub open spec fn fires(self, shortcut: ShortcutBinding, state: KeyState) -> bool {
        self.armed && shortcut == self.binding && state == KeyState::Pressed && !self.held
    }

    /// The listener after an event.
    pub open spec fn after_event(self, shortcut: ShortcutBinding, state: KeyState) -> HotkeyListener {
        if self.armed && shortcut == self.binding {
            HotkeyListener {
                binding: self.binding,
                armed: true,
                held: state == KeyState::Pressed,
            }
        } else {
            self
        }
    }

    /// A listener for `binding`, not yet registered.
    pub fn new(binding: ShortcutBinding) -> (listener: HotkeyListener)
        ensures
            listener == (HotkeyListener { binding, armed: false, held: false }),
    {
        HotkeyListener { binding, armed: false, held: false }
    }

    /// Takes the outcome of registering the binding. On success the listener
    /// is armed and the launcher is brought up; the registration therefore
    /// precedes the first request to the window. On failure startup ends with
    /// the reason, and the listener is left as it was.
    pub fn registered(&mut self, outcome: Result<(), String>, probe: WindowProbe) -> (next: Result<
        Vec<WindowAction>,
        StartupError,
    >)
        ensures
            match outcome {
                Ok(_) => {
                    &&& next matches Ok(plan)
                    &&& plan@ == reveal_actions(probe)
                    &&& *final(self) == (HotkeyListener {
                        binding: old(self).binding,
                        armed: true,
                        held: false,
                    })
                },
                Err(reason) => {
                    &&& next matches Err(error)
                    &&& error.reason@ == reason@
                    &&& *final(self) == *old(self)
                },
            },
    {
        match outcome {
            Ok(_) => {
                self.armed = true;
                self.held = false;
                Ok(reveal_plan(probe))
            },
            Err(reason) => Err(StartupError { reason }),
        }
    }

    /// Takes one shortcut event and says whether the window is to be toggled.
    pub fn on_event(&mut self, shortcut: ShortcutBinding, state: KeyState) -> (toggle: bool)
        ensures
            toggle == old(self).fires(shortcut, state),
            *final(self) == old(self).after_event(shortcut, state),
    {
        if self.armed && shortcut == self.binding {
            let pressed = state == KeyState::Pressed;
            let toggle = pressed && !self.held;
            self.held = pressed;
            toggle
        } else {
            false
        }
    }
}

/// A press fires once: while the binding stays down, further press events
/// ask for nothing, and the next press after a release fires again.
pub proof fn lemma_press_fires_once(listener: HotkeyListener)
    requires
        listener.armed,
    ensures
        !listener.after_event(listener.binding, KeyState::Pressed).fires(
            listener.binding,
            KeyState::Pressed,
        ),
        listener.after_event(listener.binding, KeyState::Released).fires(
            listener.binding,
            KeyState::Pressed,
        ),
        !listener.fires(listener.binding, KeyState::Released),
{
}

} // verus!
