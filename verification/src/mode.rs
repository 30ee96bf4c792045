//! The Local/Remote mode state machine, and the coordinator policy
//! built on it.
//!
//! One server process owns one `Mode`, touched by one thread only.  In
//! `Local` mode captured keys stay on this machine; in `Remote` mode
//! they are forwarded to the network peer and suppressed locally.  The
//! hotkey flips the mode and is itself always consumed, never forwarded
//! to either side; leaving `Remote` synthesizes releases of all four
//! Ctrl/Alt aliases for the peer, so the remote desktop keeps no
//! modifier stuck down.

use vstd::prelude::*;

use crate::classifier::HID_LEFT_ALT;
use crate::classifier::HID_LEFT_CTRL;
use crate::classifier::HID_RIGHT_ALT;
use crate::classifier::HID_RIGHT_CTRL;
use crate::data::Event;
use crate::data::KeyEvent;
use crate::data::KeyEventKind;
use crate::data::Modifiers;

verus! {

/// Whether captured input stays on this machine or goes to the peer.
/// A server process starts in `Local`.
#[derive(Copy, Clone, Debug, PartialEq, Eq, Structural)]
pub enum Mode {
    Local,
    Remote,
}

/// A release of the given key with no modifiers, as synthesized on mode
/// transitions.
pub open spec fn spec_release_of(hid: u16) -> KeyEvent {
    KeyEvent {
        hid,
        kind: KeyEventKind::Release,
        mods: Modifiers { ctrl: false, alt: false, shift: false },
    }
}

/// The four synthesized releases that clear every Ctrl and Alt alias:
/// left Ctrl, right Ctrl, left Alt, right Alt, in that order.
pub open spec fn spec_release_all() -> Seq<KeyEvent> {
    seq![
        spec_release_of(HID_LEFT_CTRL),
        spec_release_of(HID_RIGHT_CTRL),
        spec_release_of(HID_LEFT_ALT),
        spec_release_of(HID_RIGHT_ALT),
    ]
}

/// Builds the four modifier-alias releases.
pub fn release_all_modifiers() -> (v: Vec<KeyEvent>)
    ensures
        v@ == spec_release_all(),
{
    let none = Modifiers { ctrl: false, alt: false, shift: false };
    let mut v: Vec<KeyEvent> = Vec::new();
    v.push(KeyEvent { hid: HID_LEFT_CTRL, kind: KeyEventKind::Release, mods: none });
    v.push(KeyEvent { hid: HID_RIGHT_CTRL, kind: KeyEventKind::Release, mods: none });
    v.push(KeyEvent { hid: HID_LEFT_ALT, kind: KeyEventKind::Release, mods: none });
    v.push(KeyEvent { hid: HID_RIGHT_ALT, kind: KeyEventKind::Release, mods: none });
    proof {
        assert(v@ =~= spec_release_all());
    }
    v
}

/// The transition table: next mode, whether the capture engine must
/// suppress the event locally ("handled"), and the key events to
/// forward to the network peer.
///
/// | mode   | event  | handled | forwarded          | next   |
/// |--------|--------|---------|--------------------|--------|
/// | Local  | Key    | no      | nothing            | Local  |
/// | Local  | Hotkey | yes     | nothing            | Remote |
/// | Remote | Key    | yes     | that key           | Remote |
/// | Remote | Hotkey | yes     | the four releases  | Local  |
pub open spec fn spec_mode_step(mode: Mode, event: Event) -> (Mode, bool, Seq<KeyEvent>) {
    match event {
        Event::Key(k) => {
            if mode is Local {
                (Mode::Local, false, Seq::<KeyEvent>::empty())
            } else {
                (Mode::Remote, true, seq![k])
            }
        },
        Event::Hotkey => {
            if mode is Local {
                (Mode::Remote, true, Seq::<KeyEvent>::empty())
            } else {
                (Mode::Local, true, spec_release_all())
            }
        },
    }
}

/// One step of the mode state machine: decides the next mode, whether
/// the event is suppressed locally, and what goes to the network peer.
pub fn mode_step(mode: Mode, event: Event) -> (r: (Mode, bool, Vec<KeyEvent>))
    ensures
        r.0 == spec_mode_step(mode, event).0,
        r.1 == spec_mode_step(mode, event).1,
        r.2@ == spec_mode_step(mode, event).2,
{
    match event {
        Event::Key(k) => {
            match mode {
                Mode::Local => {
                    let v: Vec<KeyEvent> = Vec::new();
                    proof {
                        assert(v@ =~= Seq::<KeyEvent>::empty());
                    }
                    (Mode::Local, false, v)
                },
                Mode::Remote => {
                    let mut v: Vec<KeyEvent> = Vec::new();
                    v.push(k);
                    proof {
                        assert(v@ =~= seq![k]);
                    }
                    (Mode::Remote, true, v)
                },
            }
        },
        Event::Hotkey => {
            match mode {
                Mode::Local => {
                    let v: Vec<KeyEvent> = Vec::new();
                    proof {
                        assert(v@ =~= Seq::<KeyEvent>::empty());
                    }
                    (Mode::Remote, true, v)
                },
                Mode::Remote => (Mode::Local, true, release_all_modifiers()),
            }
        },
    }
}

/// Law: from `Local`, one hotkey arms `Remote` and synthesizes no
/// event at all; the next hotkey returns to `Local` and synthesizes
/// exactly the four modifier-alias releases — HID 0xE0, 0xE4, 0xE2,
/// 0xE6, all of kind release — directed at the network peer.
pub proof fn lemma_hotkey_toggle()
    ensures
        spec_mode_step(Mode::Local, Event::Hotkey).0 is Remote,
        spec_mode_step(Mode::Local, Event::Hotkey).1,
        spec_mode_step(Mode::Local, Event::Hotkey).2 =~= Seq::<KeyEvent>::empty(),
        spec_mode_step(spec_mode_step(Mode::Local, Event::Hotkey).0, Event::Hotkey).0 is Local,
        spec_mode_step(spec_mode_step(Mode::Local, Event::Hotkey).0, Event::Hotkey).1,
        spec_mode_step(spec_mode_step(Mode::Local, Event::Hotkey).0, Event::Hotkey).2
            =~= spec_release_all(),
        spec_release_all().len() == 4,
        spec_release_all()[0] == spec_release_of(0xE0),
        spec_release_all()[1] == spec_release_of(0xE4),
        spec_release_all()[2] == spec_release_of(0xE2),
        spec_release_all()[3] == spec_release_of(0xE6),
{
}

/// What the Linux coordinator thread does with one event drained from
/// the shared channel: it runs the mode machine, re-injects locally a
/// key the machine left unhandled (the exclusive grab hid it from the
/// rest of the OS), and on the hotkey that arms `Remote` injects the
/// four modifier-alias releases locally, so the local desktop keeps no
/// modifier of the chord stuck down.
pub open spec fn spec_coordinator_step(mode: Mode, event: Event) -> (Mode, Seq<KeyEvent>, Seq<
    KeyEvent,
>) {
    let next = spec_mode_step(mode, event);
    let inject = if mode is Local {
        match event {
            Event::Key(k) => seq![k],
            Event::Hotkey => spec_release_all(),
        }
    } else {
        Seq::<KeyEvent>::empty()
    };
    (next.0, inject, next.2)
}

/// One step of the Linux coordinator thread, the sole owner of the mode
/// and of the injection engine: returns the next mode, the events to
/// inject locally, and the events to forward to the network peer.
pub fn coordinator_step(mode: Mode, event: Event) -> (r: (Mode, Vec<KeyEvent>, Vec<KeyEvent>))
    ensures
        r.0 == spec_coordinator_step(mode, event).0,
        r.1@ == spec_coordinator_step(mode, event).1,
        r.2@ == spec_coordinator_step(mode, event).2,
{
    let next = mode_step(mode, event);
    let inject: Vec<KeyEvent> = match mode {
        Mode::Local => {
            match event {
                Event::Key(k) => {
                    let mut v: Vec<KeyEvent> = Vec::new();
                    v.push(k);
                    proof {
                        assert(v@ =~= seq![k]);
                    }
                    v
                },
                Event::Hotkey => release_all_modifiers(),
            }
        },
        Mode::Remote => {
            let v: Vec<KeyEvent> = Vec::new();
            proof {
                assert(v@ =~= Seq::<KeyEvent>::empty());
            }
            v
        },
    };
    (next.0, inject, next.2)
}

} // verus!
