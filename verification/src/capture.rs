//! The computing half of the two capture backends.
//!
//! Capture itself — grabbing Linux input devices, the Windows
//! low-level keyboard hook — is platform I/O and lives outside this
//! crate.  What each backend does with a raw event once it has one is
//! decided here: filtering autorepeat and injected events,
//! canonicalizing native codes, classifying, and telling the hook what
//! to answer the OS.

use vstd::prelude::*;

use crate::classifier::spec_classify;
use crate::classifier::classify;
use crate::data::Event;
use crate::data::KeyEventKind;
use crate::data::Modifiers;
use crate::tables;

verus! {

/// Raw Linux key event value for a release transition.
pub const LINUX_VALUE_RELEASE: i32 = 0;

/// Raw Linux key event value for a press transition.
pub const LINUX_VALUE_PRESS: i32 = 1;

/// Raw Linux key event value for an autorepeat, filtered out before
/// canonicalization.
pub const LINUX_VALUE_REPEAT: i32 = 2;

/// A device that reports both key events and autorepeat capability is
/// treated as a keyboard and captured; nothing else is.
pub fn is_keyboard_device(has_key_events: bool, has_repeat: bool) -> (r: bool)
    ensures
        r == (has_key_events && has_repeat),
{
    has_key_events && has_repeat
}

/// What one raw Linux key event becomes: the device thread's new
/// modifier set, and the classified event to put on the shared channel,
/// or nothing where the transition is filtered out (an autorepeat, a
/// value that names no transition, or a keycode outside the table).
pub open spec fn spec_device_event_step(
    inverted: Seq<u8>,
    m: Modifiers,
    code: u16,
    value: i32,
) -> (Modifiers, Option<Event>) {
    if value != LINUX_VALUE_RELEASE && value != LINUX_VALUE_PRESS {
        (m, None)
    } else if code >= 252 {
        (m, None)
    } else {
        let hid = inverted[code as int] as u16;
        let kind = if value == LINUX_VALUE_PRESS {
            KeyEventKind::Press
        } else {
            KeyEventKind::Release
        };
        let r = spec_classify(m, hid, kind);
        (r.0, Some(r.1))
    }
}

/// One step of a Linux device reader thread, given the inverted
/// keycode table and the thread's own modifier set: repeats and unknown
/// values are discarded, out-of-range keycodes are rejected (and the
/// event dropped), everything else is canonicalized and classified.
pub fn device_event_step(inverted: &[u8; 252], mods: Modifiers, code: u16, value: i32) -> (r: (
    Modifiers,
    Option<Event>,
))
    ensures
        r == spec_device_event_step(inverted@, mods, code, value),
{
    if value != LINUX_VALUE_RELEASE && value != LINUX_VALUE_PRESS {
        return (mods, None);
    }
    let hid = match tables::linux_native_to_hid(inverted, code) {
        Some(hid) => hid,
        None => {
            return (mods, None);
        },
    };
    let kind = if value == LINUX_VALUE_PRESS {
        KeyEventKind::Press
    } else {
        KeyEventKind::Release
    };
    let r = classify(mods, hid, kind);
    (r.0, Some(r.1))
}

/// Flag bit the OS sets on a low-level hook event that was produced by
/// synthetic input rather than hardware.
pub const WIN_FLAG_INJECTED: u32 = 0x10;

/// Flag bit selecting the extended scancode table.
pub const WIN_FLAG_EXTENDED: u32 = 0x1;

/// Message identifier of an ordinary key press.
pub const WM_KEYDOWN: u32 = 0x100;

/// Message identifier of an ordinary key release.
pub const WM_KEYUP: u32 = 0x101;

/// Message identifier of a key press delivered as a system key (Alt
/// held).
pub const WM_SYSKEYDOWN: u32 = 0x104;

/// Message identifier of a key release delivered as a system key.
pub const WM_SYSKEYUP: u32 = 0x105;

/// What the Windows hook makes of one raw event, before the policy
/// callback is consulted.
#[derive(Copy, Clone, Debug, PartialEq, Eq, Structural)]
pub enum HookEvent {
    /// The OS marked the event as synthetically injected — very likely
    /// this process's own output.  It must pass through untouched,
    /// never canonicalized or classified, else injection would feed
    /// back into capture.
    Injected,
    /// The message was none of the four key transition messages.
    InvalidMessage,
    /// The scancode lies outside the 8-bit table space and names no
    /// key.
    UnknownKey,
    /// A hardware transition, canonicalized and classified.
    Classified(Event),
}

/// The kind a hook message identifier stands for, if any.
pub open spec fn spec_kind_of_message(wparam: u32) -> Option<KeyEventKind> {
    if wparam == WM_KEYDOWN || wparam == WM_SYSKEYDOWN {
        Some(KeyEventKind::Press)
    } else if wparam == WM_KEYUP || wparam == WM_SYSKEYUP {
        Some(KeyEventKind::Release)
    } else {
        None
    }
}

/// What one Windows hook event becomes: the hook's new process-wide
/// modifier set, and its reading of the event.
pub open spec fn spec_windows_hook_step(m: Modifiers, scancode: u32, flags: u32, wparam: u32) -> (
    Modifiers,
    HookEvent,
) {
    if flags & WIN_FLAG_INJECTED != 0 {
        (m, HookEvent::Injected)
    } else if spec_kind_of_message(wparam) is None {
        (m, HookEvent::InvalidMessage)
    } else if scancode >= 256 {
        (m, HookEvent::UnknownKey)
    } else {
        let hid = if flags & WIN_FLAG_EXTENDED != 0 {
            tables::EXTENDED_TABLE@[scancode as int]
        } else {
            tables::SCANCODE_TABLE@[scancode as int]
        };
        let r = spec_classify(m, hid, spec_kind_of_message(wparam)->Some_0);
        (r.0, HookEvent::Classified(r.1))
    }
}

/// One step of the Windows low-level keyboard hook, given the
/// process-wide modifier set it owns: injected events pass through
/// untouched, unknown messages and out-of-range scancodes are rejected,
/// everything else is canonicalized through the flag-selected table and
/// classified.
pub fn windows_hook_step(mods: Modifiers, scancode: u32, flags: u32, wparam: u32) -> (r: (
    Modifiers,
    HookEvent,
))
    ensures
        r == spec_windows_hook_step(mods, scancode, flags, wparam),
{
    if flags & WIN_FLAG_INJECTED != 0 {
        return (mods, HookEvent::Injected);
    }
    let kind = if wparam == WM_KEYDOWN || wparam == WM_SYSKEYDOWN {
        KeyEventKind::Press
    } else if wparam == WM_KEYUP || wparam == WM_SYSKEYUP {
        KeyEventKind::Release
    } else {
        return (mods, HookEvent::InvalidMessage);
    };
    let extended = flags & WIN_FLAG_EXTENDED != 0;
    let hid = match tables::windows_scancode_to_hid(scancode, extended) {
        Some(hid) => hid,
        None => {
            return (mods, HookEvent::UnknownKey);
        },
    };
    let r = classify(mods, hid, kind);
    (r.0, HookEvent::Classified(r.1))
}

/// What the hook answers the OS once the policy callback has ruled on a
/// classified event.
#[derive(Copy, Clone, Debug, PartialEq, Eq, Structural)]
pub enum HookVerdict {
    /// Chain to the next hook: the event reaches the local desktop.
    Chain,
    /// Consume the event: the OS propagates nothing.
    Consume,
    /// Synthesize releases of Ctrl and Alt, then consume: the chord
    /// armed remote mode, and the local desktop must not keep the
    /// chord's modifiers stuck down.
    ConsumeReleasingModifiers,
}

/// The answer the hook returns for a classified event, given whether
/// the policy callback handled it: a handled key event is consumed, an
/// unhandled one chains through (normal local typing); an unhandled
/// hotkey chains through so the chord types normally while not armed, a
/// handled one consumes the chord and releases its modifiers locally.
pub fn hook_verdict(event: Event, handled: bool) -> (v: HookVerdict)
    ensures
        event is Key && handled ==> v is Consume,
        !handled ==> v is Chain,
        event is Hotkey && handled ==> v is ConsumeReleasingModifiers,
{
    match (event, handled) {
        (Event::Key(_), true) => HookVerdict::Consume,
        (Event::Key(_), false) => HookVerdict::Chain,
        (Event::Hotkey, false) => HookVerdict::Chain,
        (Event::Hotkey, true) => HookVerdict::ConsumeReleasingModifiers,
    }
}

} // verus!
