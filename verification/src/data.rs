//! Canonical event model and the fixed 4-byte wire codec.
//!
//! A `KeyEvent` names a physical key by its HID usage code, says whether
//! it went down or up, and carries the modifier set that held at the
//! time.  On the wire an event is exactly 4 little-endian bytes:
//! bytes 0..2 the HID code, byte 2 the kind (0 press, 1 release),
//! byte 3 the modifier bitmask (bit 0 Ctrl, bit 1 Alt, bit 2 Shift).

use vstd::prelude::*;

verus! {

/// Whether a key went down or came up.  Autorepeat is filtered out
/// before events are canonicalized, so no repeat variant exists.
#[derive(Copy, Clone, Debug, PartialEq, Eq, Structural)]
pub enum KeyEventKind {
    Press,
    Release,
}

impl KeyEventKind {
    /// The byte this kind takes on the wire: 0 for press, 1 for release.
    pub open spec fn spec_byte(self) -> u8 {
        match self {
            KeyEventKind::Press => 0,
            KeyEventKind::Release => 1,
        }
    }

    pub fn byte(self) -> (b: u8)
        ensures
            b == self.spec_byte(),
    {
        match self {
            KeyEventKind::Press => 0,
            KeyEventKind::Release => 1,
        }
    }

    /// The kind a wire byte stands for, if any: only 0 and 1 are valid.
    pub open spec fn spec_from_byte(b: u8) -> Option<KeyEventKind> {
        if b == 0 {
            Some(KeyEventKind::Press)
        } else if b == 1 {
            Some(KeyEventKind::Release)
        } else {
            None
        }
    }

    pub fn from_byte(b: u8) -> (r: Option<KeyEventKind>)
        ensures
            r == Self::spec_from_byte(b),
    {
        if b == 0 {
            Some(KeyEventKind::Press)
        } else if b == 1 {
            Some(KeyEventKind::Release)
        } else {
            None
        }
    }
}

/// The set of modifiers held: Ctrl, Alt, Shift.  Each bit is derived
/// from the event stream by the classifier, not read from hardware.
#[derive(Copy, Clone, Debug, PartialEq, Eq, Structural)]
pub struct Modifiers {
    pub ctrl: bool,
    pub alt: bool,
    pub shift: bool,
}

impl Modifiers {
    /// The set with no modifier held.
    pub fn empty() -> (m: Modifiers)
        ensures
            m == (Modifiers { ctrl: false, alt: false, shift: false }),
    {
        Modifiers { ctrl: false, alt: false, shift: false }
    }

    /// The wire bitmask: bit 0 Ctrl, bit 1 Alt, bit 2 Shift.
    pub open spec fn spec_bits(self) -> u8 {
        ((if self.ctrl {
            1int
        } else {
            0int
        }) + (if self.alt {
            2int
        } else {
            0int
        }) + (if self.shift {
            4int
        } else {
            0int
        })) as u8
    }

    pub fn bits(self) -> (b: u8)
        ensures
            b == self.spec_bits(),
            b < 8,
    {
        let mut b: u8 = 0;
        if self.ctrl {
            b = b + 1;
        }
        if self.alt {
            b = b + 2;
        }
        if self.shift {
            b = b + 4;
        }
        b
    }

    /// The modifier set a wire bitmask stands for.  Meaningful only for
    /// masks below 8: higher bits name no modifier.
    pub open spec fn spec_from_bits(b: u8) -> Modifiers {
        Modifiers { ctrl: b % 2 == 1, alt: (b / 2) % 2 == 1, shift: (b / 4) % 2 == 1 }
    }

    /// Reads a wire bitmask; a mask with a bit beyond the three defined
    /// ones is rejected.
    pub fn from_bits(b: u8) -> (r: Option<Modifiers>)
        ensures
            b < 8 ==> r == Some(Self::spec_from_bits(b)),
            b >= 8 ==> r is None,
    {
        if b < 8 {
            Some(Modifiers { ctrl: b % 2 == 1, alt: (b / 2) % 2 == 1, shift: (b / 4) % 2 == 1 })
        } else {
            None
        }
    }
}

/// A canonical key transition: one HID usage code, one press/release
/// kind, and the modifier set derived for this event.
#[derive(Copy, Clone, Debug, PartialEq, Eq, Structural)]
pub struct KeyEvent {
    pub hid: u16,
    pub kind: KeyEventKind,
    pub mods: Modifiers,
}

/// What the classifier makes of one canonical transition: an ordinary
/// key event, or recognition of the mode-toggle chord.  A `Hotkey` is a
/// classification result, never serialized and never forwarded.
#[derive(Copy, Clone, Debug, PartialEq, Eq, Structural)]
pub enum Event {
    Key(KeyEvent),
    Hotkey,
}

/// Why a 4-byte frame failed to decode.
#[derive(Copy, Clone, Debug, PartialEq, Eq, Structural)]
pub enum DecodeError {
    /// Byte 2 was neither 0 (press) nor 1 (release).
    InvalidKind,
    /// Byte 3 had a bit set beyond the three defined modifier bits.
    InvalidModifiers,
}

/// The 4 wire bytes of an event: HID code little-endian, kind byte,
/// modifier bitmask.
pub open spec fn spec_encode(e: KeyEvent) -> Seq<u8> {
    seq![
        (e.hid % 256) as u8,
        (e.hid / 256) as u8,
        e.kind.spec_byte(),
        e.mods.spec_bits(),
    ]
}

/// What a 4-byte frame decodes to: the event it spells, or the reason
/// it is rejected.
pub open spec fn spec_decode(b: Seq<u8>) -> Result<KeyEvent, DecodeError>
    recommends
        b.len() == 4,
{
    if KeyEventKind::spec_from_byte(b[2]) is None {
        Err(DecodeError::InvalidKind)
    } else if b[3] >= 8 {
        Err(DecodeError::InvalidModifiers)
    } else {
        Ok(
            KeyEvent {
                hid: (b[0] + 256 * b[1]) as u16,
                kind: KeyEventKind::spec_from_byte(b[2])->Some_0,
                mods: Modifiers::spec_from_bits(b[3]),
            },
        )
    }
}

impl KeyEvent {
    /// Encodes the event as its fixed 4-byte wire frame.
    pub fn to_bytes(self) -> (b: [u8; 4])
        ensures
            b@ == spec_encode(self),
    {
        let lo: u8 = (self.hid % 256) as u8;
        let hi: u8 = (self.hid / 256) as u8;
        let b: [u8; 4] = [lo, hi, self.kind.byte(), self.mods.bits()];
        proof {
            assert(b@ =~= spec_encode(self));
        }
        b
    }

    /// Decodes a 4-byte wire frame.  Returns the event exactly when the
    /// kind byte is 0 or 1 and the modifier mask has no undefined bit;
    /// each rejection names which byte was at fault.
    pub fn from_bytes(bytes: [u8; 4]) -> (r: Result<KeyEvent, DecodeError>)
        ensures
            r == spec_decode(bytes@),
    {
        let kind = match KeyEventKind::from_byte(bytes[2]) {
            Some(k) => k,
            None => {
                return Err(DecodeError::InvalidKind);
            },
        };
        let mods = match Modifiers::from_bits(bytes[3]) {
            Some(m) => m,
            None => {
                return Err(DecodeError::InvalidModifiers);
            },
        };
        let hid: u16 = bytes[0] as u16 + 256 * (bytes[1] as u16);
        Ok(KeyEvent { hid, kind, mods })
    }
}

/// Law: decoding an encoded event gives the event back.  Every
/// `KeyEvent` value is encodable, so this holds with no side condition.
pub proof fn lemma_decode_encode(e: KeyEvent)
    ensures
        spec_decode(spec_encode(e)) == Ok::<KeyEvent, DecodeError>(e),
{
    let b = spec_encode(e);
    assert(b[0] == e.hid % 256 && b[1] == e.hid / 256);
    assert(e.hid % 256 + 256 * (e.hid / 256) == e.hid) by (nonlinear_arith);
    assert(Modifiers::spec_from_bits(e.mods.spec_bits()) == e.mods);
}

/// Law: encoding a decoded frame gives the frame back, for every
/// syntactically valid frame (kind byte 0 or 1, modifier mask below 8).
pub proof fn lemma_encode_decode(b: Seq<u8>)
    requires
        b.len() == 4,
        b[2] <= 1,
        b[3] < 8,
    ensures
        spec_decode(b) is Ok,
        spec_encode(spec_decode(b)->Ok_0) =~= b,
{
    let e = spec_decode(b)->Ok_0;
    assert(e.hid == b[0] + 256 * b[1]);
    assert((b[0] + 256 * b[1]) % 256 == b[0] && (b[0] + 256 * b[1]) / 256 == b[1])
        by (nonlinear_arith)
        requires
            0 <= b[0] < 256,
            0 <= b[1] < 256,
    ;
    assert(e.mods.spec_bits() == b[3]);
}

} // verus!
