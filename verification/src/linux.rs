//! The Linux sequencing protocol.
//!
//! Modifiers are pressed in a fixed order, then every key of the request
//! is pressed in list order (a full down-pass), then every key is
//! released in the same order (a separate up-pass, enabling true
//! simultaneous chords), then the modifiers are released in the order
//! they were pressed, and finally the device is flushed once.
use vstd::prelude::*;

use crate::{key_value, key_value_spec, KBPlatform, KeyBonding, KeyBondingModel, KeyboardKey,
    NativeEvent};

verus! {

pub const EV_SYN: i32 = 0x00;

pub const EV_KEY: i32 = 0x01;

pub const K_LEFT_CTRL: u8 = 29;

pub const K_RIGHT_CTRL: u8 = 97;

pub const K_CTRL: u8 = 29;

pub const K_LEFT_SHIFT: u8 = 42;

pub const K_RIGHT_SHIFT: u8 = 54;

pub const K_SHIFT: u8 = 42;

pub const K_LEFT_ALT: u8 = 56;

pub const K_RIGHT_ALT: u8 = 100;

pub const K_ALT: u8 = 56;

/// The native codes of the modifiers a request raises, in the fixed
/// order the Linux protocol presses (and releases) them.
pub open spec fn linux_mod_codes(m: KeyBondingModel) -> Seq<u8> {
    (if m.has_alt {
        seq![K_ALT]
    } else {
        Seq::<u8>::empty()
    }) + (if m.has_altgr {
        seq![K_RIGHT_ALT]
    } else {
        Seq::<u8>::empty()
    }) + (if m.has_shift {
        seq![K_SHIFT]
    } else {
        Seq::<u8>::empty()
    }) + (if m.has_ctrl {
        seq![K_CTRL]
    } else {
        Seq::<u8>::empty()
    }) + (if m.has_rshift {
        seq![K_RIGHT_SHIFT]
    } else {
        Seq::<u8>::empty()
    }) + (if m.has_rctrl {
        seq![K_RIGHT_CTRL]
    } else {
        Seq::<u8>::empty()
    })
}

/// The canonical values of a key sequence, in order.  On Linux the
/// canonical value is the native code: the identity translation.
pub open spec fn key_codes(keys: Seq<KeyboardKey>) -> Seq<u8> {
    keys.map_values(|k: KeyboardKey| key_value_spec(k))
}

/// One key event per code, in order, all pressed or all released.
pub open spec fn linux_key_events(codes: Seq<u8>, pressed: bool) -> Seq<NativeEvent> {
    codes.map_values(|c: u8| (NativeEvent::LinuxKey { code: c, pressed: pressed }))
}

/// The full Linux event sequence for one request: modifier down-pass,
/// key down-pass, key up-pass, modifier up-pass (same order as pressed,
/// not reversed), one flush.
pub open spec fn linux_action_events(m: KeyBondingModel) -> Seq<NativeEvent> {
    linux_key_events(linux_mod_codes(m), true) + linux_key_events(key_codes(m.keys), true)
        + linux_key_events(key_codes(m.keys), false) + linux_key_events(linux_mod_codes(m), false)
        + seq![NativeEvent::LinuxSync]
}

/// The raised modifiers' native codes, in protocol order.
fn modifier_codes(kb: &KeyBonding) -> (r: Vec<u8>)
    ensures
        r@ == linux_mod_codes(kb@),
{
    let mut v: Vec<u8> = Vec::new();
    if kb.has_alt {
        v.push(K_ALT);
    }
    if kb.has_altgr {
        v.push(K_RIGHT_ALT);
    }
    if kb.has_shift {
        v.push(K_SHIFT);
    }
    if kb.has_ctrl {
        v.push(K_CTRL);
    }
    if kb.has_rshift {
        v.push(K_RIGHT_SHIFT);
    }
    if kb.has_rctrl {
        v.push(K_RIGHT_CTRL);
    }
    proof {
        assert(v@ =~= linux_mod_codes(kb@));
    }
    v
}

/// The canonical values of the request's keys, in order.
fn collect_key_codes(keys: &Vec<KeyboardKey>) -> (r: Vec<u8>)
    ensures
        r@ == key_codes(keys@),
{
    let mut v: Vec<u8> = Vec::new();
    for i in 0..keys.len()
        invariant
            v@ == key_codes(keys@.take(i as int)),
    {
        v.push(key_value(keys[i]));
        proof {
            assert(key_codes(keys@.take(i as int + 1)) =~= key_codes(keys@.take(i as int)).push(
                key_value_spec(keys@[i as int]),
            ));
        }
    }
    proof {
        assert(keys@.take(keys@.len() as int) =~= keys@);
    }
    v
}

/// Appends one key event per code, in order.
fn push_key_events(out: Vec<NativeEvent>, codes: &Vec<u8>, pressed: bool) -> (r: Vec<NativeEvent>)
    ensures
        r@ == out@ + linux_key_events(codes@, pressed),
{
    let mut r = out;
    let ghost base = r@;
    for i in 0..codes.len()
        invariant
            r@ == base + linux_key_events(codes@.take(i as int), pressed),
    {
        r.push(NativeEvent::LinuxKey { code: codes[i], pressed });
        proof {
            assert(linux_key_events(codes@.take(i as int + 1), pressed) =~= linux_key_events(
                codes@.take(i as int),
                pressed,
            ).push(NativeEvent::LinuxKey { code: codes@[i as int], pressed: pressed }));
            assert(base + linux_key_events(codes@.take(i as int + 1), pressed) =~= (base
                + linux_key_events(codes@.take(i as int), pressed)).push(
                NativeEvent::LinuxKey { code: codes@[i as int], pressed: pressed },
            ));
        }
    }
    proof {
        assert(codes@.take(codes@.len() as int) =~= codes@);
        assert(base + linux_key_events(Seq::<u8>::empty(), pressed) =~= base);
    }
    r
}

/// Computes the full Linux event sequence for one request snapshot.
pub fn linux_events(kb: &KeyBonding) -> (r: Vec<NativeEvent>)
    ensures
        r@ == linux_action_events(kb@),
{
    let mods = modifier_codes(kb);
    let keycodes = collect_key_codes(&kb.keys);
    let out: Vec<NativeEvent> = Vec::new();
    let out = push_key_events(out, &mods, true);
    let out = push_key_events(out, &keycodes, true);
    let out = push_key_events(out, &keycodes, false);
    let mut out = push_key_events(out, &mods, false);
    out.push(NativeEvent::LinuxSync);
    proof {
        assert(out@ =~= linux_action_events(kb@));
    }
    out
}

/// The Linux backend: the sequencing engine for a virtual evdev input
/// device.  It records the native events each launch issues, oldest
/// first; writing them to an actual uinput device node is left to an
/// unverified shell, since that is operating-system I/O.
pub struct LinuxKeyBD {
    pub events: Vec<NativeEvent>,
}

impl LinuxKeyBD {
    /// A fresh Linux sequencing engine with an empty event history.
    pub fn new() -> (r: Result<LinuxKeyBD, String>)
        ensures
            r is Ok,
            r->Ok_0.emitted() == Seq::<NativeEvent>::empty(),
    {
        Ok(LinuxKeyBD { events: Vec::new() })
    }
}

impl KBPlatform for LinuxKeyBD {
    open spec fn emitted(&self) -> Seq<NativeEvent> {
        self.events@
    }

    open spec fn action_events(&self, m: KeyBondingModel) -> Seq<NativeEvent> {
        linux_action_events(m)
    }

    fn run_action(&mut self, key_bonding: KeyBonding) {
        let mut evs = linux_events(&key_bonding);
        self.events.append(&mut evs);
    }
}

/// Picks the device node to open: `/dev/uinput` if it exists, else
/// `/dev/input/uinput` if that exists, else the probe fails.  The two
/// existence checks are made by the caller, so that the choice itself is
/// verified.
pub fn get_path_uinput(dev_uinput_exists: bool, dev_input_uinput_exists: bool) -> (r: Result<
    &'static str,
    String,
>)
    ensures
        dev_uinput_exists ==> (r matches Ok(p) && p@ == "/dev/uinput"@),
        !dev_uinput_exists && dev_input_uinput_exists ==> (r matches Ok(p) && p@
            == "/dev/input/uinput"@),
        !dev_uinput_exists && !dev_input_uinput_exists ==> (r matches Err(e) && e@
            == "Not found uinput file. Try this cmd 'sudo modprobe uinput'"@),
{
    if dev_uinput_exists {
        Ok("/dev/uinput")
    } else if dev_input_uinput_exists {
        Ok("/dev/input/uinput")
    } else {
        Err("Not found uinput file. Try this cmd 'sudo modprobe uinput'".to_owned())
    }
}

/// The remediation message reported when opening the device node is
/// denied: it names the failing path and the command that widens its
/// permissions.
pub fn permission_error_message(path: &str) -> (r: String)
    ensures
        r@ == "permission error for "@ + path@ + " try cmd : sudo chmod +0666 "@ + path@,
{
    let mut s = "permission error for ".to_owned();
    s.append(path);
    s.append(" try cmd : sudo chmod +0666 ");
    s.append(path);
    s
}

/// Law: the Linux protocol preserves the request's key order.  The
/// down-pass events sit right after the modifier down-pass, one per key
/// in list order; the up-pass events follow, again one per key in list
/// order; and the sequence ends with the modifier up-pass and one flush.
pub proof fn lemma_linux_event_order(m: KeyBondingModel)
    ensures
        linux_action_events(m).len() == 2 * linux_mod_codes(m).len() + 2 * m.keys.len() + 1,
        forall|i: int|
            0 <= i < m.keys.len() ==> linux_action_events(m)[linux_mod_codes(m).len() + i]
                == (NativeEvent::LinuxKey { code: key_value_spec(m.keys[i]), pressed: true }),
        forall|i: int|
            0 <= i < m.keys.len() ==> linux_action_events(m)[linux_mod_codes(m).len()
                + m.keys.len() + i] == (NativeEvent::LinuxKey {
                code: key_value_spec(m.keys[i]),
                pressed: false,
            }),
{
    let md = linux_mod_codes(m).len() as int;
    let n = m.keys.len() as int;
    let evs = linux_action_events(m);
    assert(evs.len() == 2 * md + 2 * n + 1);
    assert forall|i: int| 0 <= i < n implies evs[md + i] == (NativeEvent::LinuxKey {
        code: key_value_spec(m.keys[i]),
        pressed: true,
    }) by {
        assert(evs[md + i] == linux_key_events(key_codes(m.keys), true)[i]);
    }
    assert forall|i: int| 0 <= i < n implies evs[md + n + i] == (NativeEvent::LinuxKey {
        code: key_value_spec(m.keys[i]),
        pressed: false,
    }) by {
        assert(evs[md + n + i] == linux_key_events(key_codes(m.keys), false)[i]);
    }
}

} // verus!
