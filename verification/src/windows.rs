//! The Windows sequencing protocol.
//!
//! A native code is either a virtual-key code, marked by a large added
//! offset, or a raw scan code (any value below the offset).  Decoding
//! strips the offset or raises the scan-code flag; either way a
//! secondary byte, the decoded value plus `0x80`, accompanies the call.
//! Modifiers are pressed first, each key is pressed and released
//! immediately (interleaved per key, no batching), then the modifiers
//! are released in the order they were raised.
use vstd::prelude::*;

use crate::{key_value, key_value_spec, KBPlatform, KeyBonding, KeyBondingModel, KeyboardKey,
    NativeEvent};

verus! {

pub const FLAG_KEYUP: u16 = 0x0002;

pub const FLAG_SCAN_CODE: u16 = 0x0008;

/// Added to a virtual-key value to distinguish it from a raw scan code.
pub const VK_OFFSET: u16 = 0xFFF;

pub const K_SHIFT: u16 = 0x10 + 0xFFF;

pub const K_CTRL: u16 = 0x11 + 0xFFF;

pub const K_ALT: u16 = 0x12 + 0xFFF;

pub const K_RSHIFT: u16 = 0xA1 + 0xFFF;

pub const K_RCONTROL: u16 = 0xA3 + 0xFFF;

/// The `keybd_event` call a key code produces.  A value below the
/// offset is a raw scan code and raises the scan-code flag; otherwise
/// the offset is stripped to recover the virtual-key value.  The
/// secondary byte is the decoded value plus `0x80`, reduced to a byte.
pub open spec fn win_keybd_call(key: u16, up: bool) -> NativeEvent {
    let upflag: u16 = if up {
        FLAG_KEYUP
    } else {
        0
    };
    if key < VK_OFFSET {
        (NativeEvent::WinKeybd {
            vk: (key % 256) as u8,
            scan: ((key + 0x80) % 256) as u8,
            dw_flags: upflag | FLAG_SCAN_CODE,
        })
    } else {
        (NativeEvent::WinKeybd {
            vk: ((key - VK_OFFSET) % 256) as u8,
            scan: ((key - VK_OFFSET + 0x80) % 256) as u8,
            dw_flags: upflag,
        })
    }
}

/// Executable form of [`win_keybd_call`].
pub fn win_call(key: u16, up: bool) -> (r: NativeEvent)
    ensures
        r == win_keybd_call(key, up),
{
    let mut key = key;
    let mut flag: u16 = if up {
        FLAG_KEYUP
    } else {
        0
    };
    if key < VK_OFFSET {
        flag |= FLAG_SCAN_CODE;
    } else {
        key -= VK_OFFSET;
    }
    let vk: u8 = (key % 256) as u8;
    let scan: u8 = ((key % 256) + 0x80) as u8;
    proof {
        assert(((key % 256) + 0x80) as u8 == ((key + 0x80) % 256) as u8) by (bit_vector);
    }
    NativeEvent::WinKeybd { vk, scan, dw_flags: flag }
}

/// The native codes of the modifiers a request raises, in the fixed
/// order the Windows protocol presses (and releases) them; alt-gr
/// presses both Alt and Ctrl.
pub open spec fn windows_mod_codes(m: KeyBondingModel) -> Seq<u16> {
    (if m.has_alt {
        seq![K_ALT]
    } else {
        Seq::<u16>::empty()
    }) + (if m.has_altgr {
        seq![K_ALT, K_CTRL]
    } else {
        Seq::<u16>::empty()
    }) + (if m.has_shift {
        seq![K_SHIFT]
    } else {
        Seq::<u16>::empty()
    }) + (if m.has_ctrl {
        seq![K_CTRL]
    } else {
        Seq::<u16>::empty()
    }) + (if m.has_rshift {
        seq![K_RSHIFT]
    } else {
        Seq::<u16>::empty()
    }) + (if m.has_rctrl {
        seq![K_RCONTROL]
    } else {
        Seq::<u16>::empty()
    })
}

/// The canonical values of a key sequence, widened to the Windows code
/// space (all canonical values lie below the offset, so they travel the
/// scan-code path).
pub open spec fn key_codes16(keys: Seq<KeyboardKey>) -> Seq<u16> {
    keys.map_values(|k: KeyboardKey| key_value_spec(k) as u16)
}

/// A down call immediately followed by an up call, per code, in order.
pub open spec fn windows_key_pairs(codes: Seq<u16>) -> Seq<NativeEvent>
    decreases codes.len(),
{
    if codes.len() == 0 {
        Seq::empty()
    } else {
        windows_key_pairs(codes.drop_last()) + seq![
            win_keybd_call(codes.last(), false),
            win_keybd_call(codes.last(), true),
        ]
    }
}

/// The full Windows event sequence for one request: modifier down
/// calls, a down+up pair per key in list order, modifier up calls in
/// the order the modifiers were raised.
pub open spec fn windows_action_events(m: KeyBondingModel) -> Seq<NativeEvent> {
    windows_mod_codes(m).map_values(|c: u16| win_keybd_call(c, false)) + windows_key_pairs(
        key_codes16(m.keys),
    ) + windows_mod_codes(m).map_values(|c: u16| win_keybd_call(c, true))
}

/// The raised modifiers' native codes, in protocol order.
fn modifier_codes(kb: &KeyBonding) -> (r: Vec<u16>)
    ensures
        r@ == windows_mod_codes(kb@),
{
    let mut v: Vec<u16> = Vec::new();
    if kb.has_alt {
        v.push(K_ALT);
    }
    if kb.has_altgr {
        v.push(K_ALT);
        v.push(K_CTRL);
    }
    if kb.has_shift {
        v.push(K_SHIFT);
    }
    if kb.has_ctrl {
        v.push(K_CTRL);
    }
    if kb.has_rshift {
        v.push(K_RSHIFT);
    }
    if kb.has_rctrl {
        v.push(K_RCONTROL);
    }
    proof {
        assert(v@ =~= windows_mod_codes(kb@));
    }
    v
}

/// Appends one `keybd_event` call per code, in order.
fn push_mod_calls(out: Vec<NativeEvent>, codes: &Vec<u16>, up: bool) -> (r: Vec<NativeEvent>)
    ensures
        r@ == out@ + codes@.map_values(|c: u16| win_keybd_call(c, up)),
{
    let mut r = out;
    let ghost base = r@;
    for i in 0..codes.len()
        invariant
            r@ == base + codes@.take(i as int).map_values(|c: u16| win_keybd_call(c, up)),
    {
        r.push(win_call(codes[i], up));
        proof {
            assert(codes@.take(i as int + 1).map_values(|c: u16| win_keybd_call(c, up))
                =~= codes@.take(i as int).map_values(|c: u16| win_keybd_call(c, up)).push(
                win_keybd_call(codes@[i as int], up),
            ));
            assert(base + codes@.take(i as int + 1).map_values(|c: u16| win_keybd_call(c, up))
                =~= (base + codes@.take(i as int).map_values(|c: u16| win_keybd_call(c, up))).push(
                win_keybd_call(codes@[i as int], up),
            ));
        }
    }
    proof {
        assert(codes@.take(codes@.len() as int) =~= codes@);
        assert(base + Seq::<u16>::empty().map_values(|c: u16| win_keybd_call(c, up)) =~= base);
    }
    r
}

/// Computes the full Windows event sequence for one request snapshot.
pub fn windows_events(kb: &KeyBonding) -> (r: Vec<NativeEvent>)
    ensures
        r@ == windows_action_events(kb@),
{
    let mods = modifier_codes(kb);
    let out: Vec<NativeEvent> = Vec::new();
    let out = push_mod_calls(out, &mods, false);
    let mut out = out;
    let n = kb.keys.len();
    for i in 0..n
        invariant
            n == kb.keys.len(),
            out@ == windows_mod_codes(kb@).map_values(|c: u16| win_keybd_call(c, false))
                + windows_key_pairs(key_codes16(kb@.keys.take(i as int))),
    {
        let code: u16 = key_value(kb.keys[i]) as u16;
        out.push(win_call(code, false));
        out.push(win_call(code, true));
        proof {
            let prefix = windows_mod_codes(kb@).map_values(|c: u16| win_keybd_call(c, false));
            let taken = key_codes16(kb@.keys.take(i as int + 1));
            assert(taken.drop_last() =~= key_codes16(kb@.keys.take(i as int)));
            assert(taken.last() == key_value_spec(kb@.keys[i as int]) as u16);
            assert(prefix + windows_key_pairs(taken) =~= (prefix + windows_key_pairs(
                key_codes16(kb@.keys.take(i as int)),
            )).push(win_keybd_call(taken.last(), false)).push(win_keybd_call(taken.last(), true)));
        }
    }
    proof {
        assert(kb@.keys.take(kb@.keys.len() as int) =~= kb@.keys);
        assert(windows_mod_codes(kb@).map_values(|c: u16| win_keybd_call(c, false))
            + windows_key_pairs(key_codes16(Seq::<KeyboardKey>::empty())) =~= windows_mod_codes(
            kb@,
        ).map_values(|c: u16| win_keybd_call(c, false)));
    }
    let out = push_mod_calls(out, &mods, true);
    proof {
        assert(out@ =~= windows_action_events(kb@));
    }
    out
}

/// The Windows backend: the sequencing engine for the `keybd_event`
/// native call.  It records the calls each launch issues, oldest first;
/// making the actual system calls is left to an unverified shell.  The
/// native call returns nothing, so this backend has no failure
/// detection for individual events.
pub struct WindowsKeyBD {
    pub events: Vec<NativeEvent>,
}

impl WindowsKeyBD {
    /// A fresh Windows sequencing engine with an empty event history.
    /// Construction never fails.
    pub fn new() -> (r: Result<WindowsKeyBD, String>)
        ensures
            r is Ok,
            r->Ok_0.emitted() == Seq::<NativeEvent>::empty(),
    {
        Ok(WindowsKeyBD { events: Vec::new() })
    }
}

impl KBPlatform for WindowsKeyBD {
    open spec fn emitted(&self) -> Seq<NativeEvent> {
        self.events@
    }

    open spec fn action_events(&self, m: KeyBondingModel) -> Seq<NativeEvent> {
        windows_action_events(m)
    }

    fn run_action(&mut self, key_bonding: KeyBonding) {
        let mut evs = windows_events(&key_bonding);
        self.events.append(&mut evs);
    }
}

/// Supporting fact: the pair sequence is twice as long as its codes.
proof fn lemma_windows_key_pairs_len(codes: Seq<u16>)
    ensures
        windows_key_pairs(codes).len() == 2 * codes.len(),
    decreases codes.len(),
{
    if codes.len() > 0 {
        lemma_windows_key_pairs_len(codes.drop_last());
    }
}

/// Supporting fact: each down+up pair sits at twice its key's index.
proof fn lemma_windows_key_pairs_index(codes: Seq<u16>, i: int)
    requires
        0 <= i < codes.len(),
    ensures
        windows_key_pairs(codes).len() == 2 * codes.len(),
        windows_key_pairs(codes)[2 * i] == win_keybd_call(codes[i], false),
        windows_key_pairs(codes)[2 * i + 1] == win_keybd_call(codes[i], true),
    decreases codes.len(),
{
    lemma_windows_key_pairs_len(codes);
    if i == codes.len() - 1 {
        lemma_windows_key_pairs_len(codes.drop_last());
    } else {
        lemma_windows_key_pairs_index(codes.drop_last(), i);
    }
}

/// Law: the Windows protocol preserves the request's key order.  Right
/// after the modifier down calls, key `i` of the request contributes
/// exactly the calls at positions `2 i` and `2 i + 1` of the key block:
/// its down call, then its up call.
pub proof fn lemma_windows_event_order(m: KeyBondingModel)
    ensures
        windows_action_events(m).len() == 2 * windows_mod_codes(m).len() + 2 * m.keys.len(),
        forall|i: int|
            0 <= i < m.keys.len() ==> windows_action_events(m)[windows_mod_codes(m).len() + 2 * i]
                == win_keybd_call(key_value_spec(m.keys[i]) as u16, false),
        forall|i: int|
            0 <= i < m.keys.len() ==> windows_action_events(m)[windows_mod_codes(m).len() + 2 * i
                + 1] == win_keybd_call(key_value_spec(m.keys[i]) as u16, true),
{
    let md = windows_mod_codes(m).len() as int;
    let n = m.keys.len() as int;
    let evs = windows_action_events(m);
    let pairs = windows_key_pairs(key_codes16(m.keys));
    if n > 0 {
        lemma_windows_key_pairs_index(key_codes16(m.keys), 0);
    } else {
        assert(pairs.len() == 2 * n);
    }
    assert forall|i: int| 0 <= i < n implies evs[md + 2 * i] == win_keybd_call(
        key_value_spec(m.keys[i]) as u16,
        false,
    ) && evs[md + 2 * i + 1] == win_keybd_call(key_value_spec(m.keys[i]) as u16, true) by {
        lemma_windows_key_pairs_index(key_codes16(m.keys), i);
        assert(evs[md + 2 * i] == pairs[2 * i]);
        assert(evs[md + 2 * i + 1] == pairs[2 * i + 1]);
    }
}

} // verus!
