//! Modifier tracking and hotkey classification.
//!
//! A pure step function: from the modifier set held so far and one
//! canonical transition it derives the new modifier set and decides
//! whether the transition is an ordinary key event or the mode-toggle
//! chord (Ctrl+Alt+Tab).  Each capture source keeps its own modifier
//! state and runs this step per event, so a modifier held on one
//! physical keyboard does not arm the chord on another — a known
//! limitation kept as designed.

use vstd::prelude::*;

use crate::data::{Event, KeyEvent, KeyEventKind, Modifiers};

verus! {

/// HID usage code of the left Ctrl key.
pub const HID_LEFT_CTRL: u16 = 0xE0;

/// HID usage code of the left Shift key.
pub const HID_LEFT_SHIFT: u16 = 0xE1;

/// HID usage code of the left Alt key.
pub const HID_LEFT_ALT: u16 = 0xE2;

/// HID usage code of the right Ctrl key.
pub const HID_RIGHT_CTRL: u16 = 0xE4;

/// HID usage code of the right Shift key.
pub const HID_RIGHT_SHIFT: u16 = 0xE5;

/// HID usage code of the right Alt key.
pub const HID_RIGHT_ALT: u16 = 0xE6;

/// HID usage code of the Tab key, the non-modifier key of the chord.
pub const HID_TAB: u16 = 0x2B;

/// The modifier set after one transition.  A key that aliases a
/// modifier overwrites that modifier's bit with the press state of this
/// very event — last writer wins across the left/right aliases, so
/// releasing one alias clears the bit even while the other alias is
/// still physically down.  This overwrite (rather than OR) semantics is
/// kept as found, flagged as a correctness gap, not silently fixed.
pub open spec fn spec_update_mods(m: Modifiers, hid: u16, kind: KeyEventKind) -> Modifiers {
    let down = kind is Press;
    if hid == HID_LEFT_CTRL || hid == HID_RIGHT_CTRL {
        Modifiers { ctrl: down, alt: m.alt, shift: m.shift }
    } else if hid == HID_LEFT_SHIFT || hid == HID_RIGHT_SHIFT {
        Modifiers { ctrl: m.ctrl, alt: m.alt, shift: down }
    } else if hid == HID_LEFT_ALT || hid == HID_RIGHT_ALT {
        Modifiers { ctrl: m.ctrl, alt: down, shift: m.shift }
    } else {
        m
    }
}

/// Whether a transition completes the mode-toggle chord: Tab pressed
/// while both Ctrl and Alt are held, judged against the modifier set
/// after this same transition was applied (Tab is no modifier, so the
/// update never changes the answer for it).
pub open spec fn spec_is_hotkey(m_after: Modifiers, hid: u16, kind: KeyEventKind) -> bool {
    hid == HID_TAB && kind is Press && m_after.ctrl && m_after.alt
}

/// The classifier's verdict on one transition: the post-update modifier
/// set, and either the hotkey or an ordinary key event carrying that
/// same post-update set.
pub open spec fn spec_classify(m: Modifiers, hid: u16, kind: KeyEventKind) -> (Modifiers, Event) {
    let m2 = spec_update_mods(m, hid, kind);
    (
        m2,
        if spec_is_hotkey(m2, hid, kind) {
            Event::Hotkey
        } else {
            Event::Key(KeyEvent { hid, kind, mods: m2 })
        },
    )
}

/// Classifies one canonical transition: updates the modifier set and
/// decides between an ordinary key event and the hotkey.
pub fn classify(mods: Modifiers, hid: u16, kind: KeyEventKind) -> (r: (Modifiers, Event))
    ensures
        r == spec_classify(mods, hid, kind),
{
    let down = match kind {
        KeyEventKind::Press => true,
        KeyEventKind::Release => false,
    };
    let m2 = if hid == HID_LEFT_CTRL || hid == HID_RIGHT_CTRL {
        Modifiers { ctrl: down, alt: mods.alt, shift: mods.shift }
    } else if hid == HID_LEFT_SHIFT || hid == HID_RIGHT_SHIFT {
        Modifiers { ctrl: mods.ctrl, alt: mods.alt, shift: down }
    } else if hid == HID_LEFT_ALT || hid == HID_RIGHT_ALT {
        Modifiers { ctrl: mods.ctrl, alt: down, shift: mods.shift }
    } else {
        mods
    };
    let event = if hid == HID_TAB && down && m2.ctrl && m2.alt {
        Event::Hotkey
    } else {
        Event::Key(KeyEvent { hid, kind, mods: m2 })
    };
    (m2, event)
}

} // verus!
