//! Canonicalization tables between native keycode spaces and the
//! hardware-independent HID usage code space.
//!
//! Linux names keys by input keycodes; the fixed `HID_TO_LINUX_TABLE`
//! (the kernel's USB-HID keyboard mapping) is inverted once at startup
//! to canonicalize captured keycodes, and read forwards to inject.
//! Windows names keys by scancodes and disambiguates some keys only via
//! an "extended" flag, so two parallel scancode tables apply there.

use vstd::prelude::*;

verus! {

/// Fixed HID usage code -> Linux input keycode map, taken from the
/// kernel's USB-HID keyboard mapping.  The index is the HID code; an
/// entry of 0 means the index names no known key (HID 0 is reserved).
pub const HID_TO_LINUX_TABLE: [u8; 252] = [
    0, 0, 0, 0, 30, 48, 46, 32, 18, 33, 34, 35, 23, 36, 37, 38,
    50, 49, 24, 25, 16, 19, 31, 20, 22, 47, 17, 45, 21, 44, 2, 3,
    4, 5, 6, 7, 8, 9, 10, 11, 28, 1, 14, 15, 57, 12, 13, 26,
    27, 43, 43, 39, 40, 41, 51, 52, 53, 58, 59, 60, 61, 62, 63, 64,
    65, 66, 67, 68, 87, 88, 99, 70, 119, 110, 102, 104, 111, 107, 109, 106,
    105, 108, 103, 69, 98, 55, 74, 78, 96, 79, 80, 81, 75, 76, 77, 71,
    72, 73, 82, 83, 86, 127, 116, 117, 183, 184, 185, 186, 187, 188, 189, 190,
    191, 192, 193, 194, 134, 138, 130, 132, 128, 129, 131, 137, 133, 135, 136, 113,
    115, 114, 0, 0, 0, 121, 0, 89, 93, 124, 92, 94, 95, 0, 0, 0,
    122, 123, 90, 91, 85, 0, 0, 0, 0, 0, 0, 0, 0, 0, 0, 0,
    0, 0, 0, 0, 0, 0, 0, 0, 0, 0, 0, 0, 0, 0, 0, 0,
    0, 0, 0, 0, 0, 0, 0, 0, 0, 0, 0, 0, 0, 0, 0, 0,
    0, 0, 0, 0, 0, 0, 0, 0, 0, 0, 0, 0, 0, 0, 0, 0,
    0, 0, 0, 0, 0, 0, 0, 0, 0, 0, 0, 0, 0, 0, 0, 0,
    29, 42, 56, 125, 97, 54, 100, 126, 164, 166, 165, 163, 161, 115, 114, 113,
    150, 158, 159, 128, 136, 177, 178, 176, 142, 152, 173, 140,
];

/// Windows scancode -> HID usage code, for events without the extended
/// flag.  An entry of 0 means the scancode names no known key.
pub const SCANCODE_TABLE: [u16; 256] = [
    0, 41, 30, 31, 32, 33, 34, 35, 36, 37, 38, 39, 45, 46, 42, 43,
    20, 26, 8, 21, 23, 28, 24, 12, 18, 19, 47, 48, 40, 224, 4, 22,
    7, 9, 10, 11, 13, 14, 15, 51, 52, 53, 225, 50, 29, 27, 6, 25,
    5, 17, 16, 54, 55, 56, 229, 85, 226, 44, 57, 58, 59, 60, 61, 62,
    63, 64, 65, 66, 67, 83, 71, 95, 96, 97, 86, 92, 93, 94, 87, 89,
    90, 91, 98, 99, 0, 0, 100, 68, 69, 103, 0, 0, 140, 0, 0, 0,
    0, 0, 0, 0, 104, 105, 106, 107, 108, 109, 110, 111, 112, 113, 114, 0,
    136, 145, 144, 135, 0, 0, 148, 147, 146, 138, 0, 139, 0, 137, 133, 0,
    0, 0, 0, 0, 0, 0, 0, 0, 0, 0, 0, 0, 0, 0, 0, 0,
    0, 0, 0, 0, 0, 0, 0, 0, 0, 0, 0, 0, 0, 0, 0, 0,
    0, 0, 0, 0, 0, 0, 0, 0, 0, 0, 0, 0, 0, 0, 0, 0,
    0, 0, 0, 0, 0, 0, 0, 0, 0, 0, 0, 0, 0, 0, 0, 0,
    0, 0, 0, 0, 0, 0, 0, 0, 0, 0, 0, 0, 0, 0, 0, 0,
    0, 0, 0, 0, 0, 0, 0, 0, 0, 0, 0, 0, 0, 0, 0, 0,
    0, 0, 0, 0, 0, 0, 0, 0, 0, 0, 0, 0, 0, 0, 0, 0,
    0, 0, 0, 0, 0, 0, 0, 0, 0, 0, 0, 0, 0, 0, 0, 1,
];

/// Windows scancode -> HID usage code, for events carrying the
/// extended flag (numpad, right Ctrl/Alt, navigation cluster).
pub const EXTENDED_TABLE: [u16; 256] = [
    0, 0, 0, 0, 0, 0, 0, 0, 0, 0, 0, 0, 0, 0, 0, 0,
    182, 0, 0, 0, 0, 0, 0, 0, 0, 181, 0, 0, 88, 228, 0, 0,
    226, 402, 205, 0, 183, 0, 0, 0, 0, 0, 0, 0, 0, 0, 234, 0,
    233, 0, 547, 0, 0, 84, 0, 70, 230, 0, 0, 0, 0, 0, 0, 0,
    0, 0, 0, 0, 0, 72, 0, 74, 82, 75, 0, 80, 0, 79, 0, 77,
    81, 78, 73, 76, 0, 0, 0, 0, 0, 0, 0, 227, 231, 101, 102, 130,
    0, 0, 0, 131, 0, 545, 554, 551, 550, 549, 548, 404, 394, 387, 0, 0,
    0, 0, 0, 0, 0, 0, 0, 0, 0, 0, 0, 0, 0, 0, 0, 0,
    0, 0, 0, 0, 0, 0, 0, 0, 0, 0, 0, 0, 0, 0, 0, 0,
    0, 0, 0, 0, 0, 0, 0, 0, 0, 0, 0, 0, 0, 0, 0, 0,
    0, 0, 0, 0, 0, 0, 0, 0, 0, 0, 0, 0, 0, 0, 0, 0,
    0, 0, 0, 0, 0, 0, 0, 0, 0, 0, 0, 0, 0, 0, 0, 0,
    0, 0, 0, 0, 0, 0, 0, 0, 0, 0, 0, 0, 0, 0, 0, 0,
    0, 0, 0, 0, 0, 0, 0, 0, 0, 0, 0, 0, 0, 0, 0, 0,
    0, 0, 0, 0, 0, 0, 0, 0, 0, 0, 0, 0, 0, 0, 0, 0,
    0, 0, 0, 0, 0, 0, 0, 0, 0, 0, 0, 0, 0, 0, 0, 0,
];

/// Holds when one of the first `n` entries of `t` is the code `s`.
pub open spec fn occurs(t: Seq<u8>, n: int, s: u8) -> bool {
    exists|i: int| 0 <= i < n && t[i] == s
}

/// Inverts a HID -> native table into a native -> HID table sized to
/// the native keycode space.  Where several indices hold the same
/// native code, the last one wins; a native code no index holds maps
/// to 0 (unmapped); an entry beyond the inverted table's range is
/// ignored (the table this is built for has none).
pub fn invert_linux_table(table: &[u8; 252]) -> (inverted: [u8; 252])
    ensures
        forall|s: u8|
            s < 252 && #[trigger] occurs(table@, 252, s) ==> inverted@[s as int] < 252
                && table@[inverted@[s as int] as int] == s,
        forall|s: u8| s < 252 && !(#[trigger] occurs(table@, 252, s)) ==> inverted@[s as int] == 0,
        forall|s: u8, j: int|
            #![trigger inverted@[s as int], table@[j]]
            s < 252 && inverted@[s as int] < j < 252 ==> table@[j] != s,
{
    let mut inverted: [u8; 252] = [0; 252];
    let mut idx: usize = 0;
    while idx < 252
        invariant
            idx <= 252,
            forall|s: u8|
                s < 252 && #[trigger] occurs(table@, idx as int, s) ==> inverted@[s as int] < idx
                    && table@[inverted@[s as int] as int] == s,
            forall|s: u8|
                s < 252 && !(#[trigger] occurs(table@, idx as int, s)) ==> inverted@[s as int]
                    == 0,
            forall|s: u8, j: int|
                #![trigger inverted@[s as int], table@[j]]
                s < 252 && inverted@[s as int] < j < idx ==> table@[j] != s,
        decreases 252 - idx,
    {
        let scancode = table[idx];
        if (scancode as usize) < 252 {
            inverted[scancode as usize] = idx as u8;
        }
        idx = idx + 1;
        proof {
            assert forall|s: u8|
                s < 252 && #[trigger] occurs(table@, idx as int, s) && table@[idx - 1]
                    != s implies occurs(table@, idx - 1, s) by {
                let i = choose|i: int| 0 <= i < idx && table@[i] == s;
                assert(0 <= i < idx - 1 && table@[i] == s);
            }
            assert forall|s: u8| s < 252 && #[trigger] occurs(table@, idx - 1, s) implies occurs(
                table@,
                idx as int,
                s,
            ) by {
                let i = choose|i: int| 0 <= i < idx - 1 && table@[i] == s;
                assert(0 <= i < idx && table@[i] == s);
            }
            assert(forall|s: u8|
                s < 252 && table@[idx - 1] == s ==> #[trigger] occurs(table@, idx as int, s));
            assert forall|s: u8|
                s < 252 && !(occurs(table@, idx as int, s)) implies inverted@[s as int] == 0 by {
                assert(!occurs(table@, idx - 1, s));
                assert(table@[idx - 1] != s);
            }
        }
    }
    inverted
}

/// Canonicalizes a native Linux keycode through an inverted table.
/// An out-of-range code names no key and is rejected, for the caller
/// to drop; an in-range code with no mapping silently canonicalizes to
/// HID 0, as the Windows tables also do — kept as designed.
pub fn linux_native_to_hid(inverted: &[u8; 252], code: u16) -> (r: Option<u16>)
    ensures
        code < 252 ==> r == Some(inverted@[code as int] as u16),
        code >= 252 ==> r is None,
{
    if code < 252 {
        Some(inverted[code as usize] as u16)
    } else {
        None
    }
}

/// The native Linux keycode a HID usage code is injected as.  A HID
/// code beyond the table names no key and cannot be injected.
pub fn hid_to_linux_code(hid: u16) -> (r: Option<u8>)
    ensures
        hid < 252 ==> r == Some(HID_TO_LINUX_TABLE@[hid as int]),
        hid >= 252 ==> r is None,
{
    if hid < 252 {
        Some(HID_TO_LINUX_TABLE[hid as usize])
    } else {
        None
    }
}

/// Canonicalizes a Windows scancode; the extended flag selects which of
/// the two parallel tables applies.  A code beyond the 8-bit scancode
/// space names no key.
pub fn windows_scancode_to_hid(scancode: u32, extended: bool) -> (r: Option<u16>)
    ensures
        scancode < 256 && extended ==> r == Some(EXTENDED_TABLE@[scancode as int]),
        scancode < 256 && !extended ==> r == Some(SCANCODE_TABLE@[scancode as int]),
        scancode >= 256 ==> r is None,
{
    if scancode < 256 {
        if extended {
            Some(EXTENDED_TABLE[scancode as usize])
        } else {
            Some(SCANCODE_TABLE[scancode as usize])
        }
    } else {
        None
    }
}

} // verus!
