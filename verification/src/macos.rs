//! The macOS sequencing protocol.
//!
//! Each key of the request is processed independently and in order: the
//! canonical key is translated through a fixed table (several keys have
//! no native counterpart and are skipped), a down event and an up event
//! are built, one combined modifier-flag mask is applied to both, and
//! the down event is posted, a pause is taken (10 ms unless tuned), and the
//! up event is posted.  There is no down-pass/up-pass batching here:
//! that is an intentional divergence from the Linux protocol.
use vstd::prelude::*;

use crate::{KBPlatform, KeyBonding, KeyBondingModel, KeyboardKey, NativeEvent};

verus! {

pub const CG_FLAG_NULL: u64 = 0;

pub const CG_FLAG_SHIFT: u64 = 0x00020000;

pub const CG_FLAG_CONTROL: u64 = 0x00040000;

pub const CG_FLAG_ALTERNATE: u64 = 0x00080000;

/// The default pause between posting a key's down event and its up
/// event.
pub const MAC_KEY_DELAY_MS: u64 = 10;

/// The fixed translation table from canonical keys to macOS keycodes:
/// total on the canonical set, partial on the native side.  `None`
/// means the key has no native counterpart and is skipped.
pub open spec fn mac_keycode_spec(k: KeyboardKey) -> Option<u16> {
    match k {
        KeyboardKey::KeySP1 => Some(0x0A),
        KeyboardKey::KeySP2 => Some(0x1B),
        KeyboardKey::KeySP3 => Some(0x18),
        KeyboardKey::KeySP4 => Some(0x21),
        KeyboardKey::KeySP5 => Some(0x1E),
        KeyboardKey::KeySP6 => Some(0x29),
        KeyboardKey::KeySP7 => Some(0x27),
        KeyboardKey::KeySP8 => Some(0x2A),
        KeyboardKey::KeySP9 => Some(0x2B),
        KeyboardKey::KeySP10 => Some(0x2F),
        KeyboardKey::KeySP11 => Some(0x2C),
        KeyboardKey::KeySP12 => Some(0x32),
        KeyboardKey::KeyUP => Some(0x7E),
        KeyboardKey::KeyDOWN => Some(0x7D),
        KeyboardKey::KeyLEFT => Some(0x7B),
        KeyboardKey::KeyRIGHT => Some(0x7C),
        KeyboardKey::KeyESC => Some(0x35),
        KeyboardKey::Key1 => Some(0x12),
        KeyboardKey::Key2 => Some(0x13),
        KeyboardKey::Key3 => Some(0x14),
        KeyboardKey::Key4 => Some(0x15),
        KeyboardKey::Key5 => Some(0x17),
        KeyboardKey::Key6 => Some(0x16),
        KeyboardKey::Key7 => Some(0x1A),
        KeyboardKey::Key8 => Some(0x1C),
        KeyboardKey::Key9 => Some(0x19),
        KeyboardKey::Key0 => Some(0x1D),
        KeyboardKey::KeyQ => Some(0x0C),
        KeyboardKey::KeyW => Some(0x0D),
        KeyboardKey::KeyE => Some(0x0E),
        KeyboardKey::KeyR => Some(0x0F),
        KeyboardKey::KeyT => Some(0x11),
        KeyboardKey::KeyY => Some(0x10),
        KeyboardKey::KeyU => Some(0x20),
        KeyboardKey::KeyI => Some(0x22),
        KeyboardKey::KeyO => Some(0x1F),
        KeyboardKey::KeyP => Some(0x23),
        KeyboardKey::KeyA => Some(0x00),
        KeyboardKey::KeyS => Some(0x01),
        KeyboardKey::KeyD => Some(0x02),
        KeyboardKey::KeyF => Some(0x03),
        KeyboardKey::KeyG => Some(0x05),
        KeyboardKey::KeyH => Some(0x04),
        KeyboardKey::KeyJ => Some(0x26),
        KeyboardKey::KeyK => Some(0x28),
        KeyboardKey::KeyL => Some(0x25),
        KeyboardKey::KeyZ => Some(0x06),
        KeyboardKey::KeyX => Some(0x07),
        KeyboardKey::KeyC => Some(0x08),
        KeyboardKey::KeyV => Some(0x09),
        KeyboardKey::KeyB => Some(0x0B),
        KeyboardKey::KeyN => Some(0x2D),
        KeyboardKey::KeyM => Some(0x2E),
        KeyboardKey::KeyF1 => Some(0x7A),
        KeyboardKey::KeyF2 => Some(0x78),
        KeyboardKey::KeyF3 => Some(0x63),
        KeyboardKey::KeyF4 => Some(0x76),
        KeyboardKey::KeyF5 => Some(0x60),
        KeyboardKey::KeyF6 => Some(0x61),
        KeyboardKey::KeyF7 => Some(0x62),
        KeyboardKey::KeyF8 => Some(0x64),
        KeyboardKey::KeyF9 => Some(0x65),
        KeyboardKey::KeyF10 => Some(0x6D),
        KeyboardKey::KeyF11 => Some(0x67),
        KeyboardKey::KeyF12 => Some(0x6F),
        KeyboardKey::KeyNUMLock => None,
        KeyboardKey::KeyScrollLock => None,
        KeyboardKey::KeyRESERVED => None,
        KeyboardKey::KeyBACKSPACE => Some(0x33),
        KeyboardKey::KeyTAB => Some(0x30),
        KeyboardKey::KeyENTER => Some(0x24),
        KeyboardKey::KeySPACE => Some(0x31),
        KeyboardKey::KeyCAPSLock => Some(0x39),
        KeyboardKey::KeyKP0 => Some(0x52),
        KeyboardKey::KeyKP1 => Some(0x53),
        KeyboardKey::KeyKP2 => Some(0x54),
        KeyboardKey::KeyKP3 => Some(0x55),
        KeyboardKey::KeyKP4 => Some(0x56),
        KeyboardKey::KeyKP5 => Some(0x57),
        KeyboardKey::KeyKP6 => Some(0x58),
        KeyboardKey::KeyKP7 => Some(0x59),
        KeyboardKey::KeyKP8 => Some(0x5B),
        KeyboardKey::KeyKP9 => Some(0x5C),
        KeyboardKey::KeyKPMinus => Some(0x4E),
        KeyboardKey::KeyKPPlus => Some(0x45),
        KeyboardKey::KeyKPDot => Some(0x41),
        KeyboardKey::KeyKPJPComma => None,
        KeyboardKey::KeyKPEnter => Some(0x4C),
        KeyboardKey::KeyKPSlash => Some(0x4B),
        KeyboardKey::KeyKPAsterisk => Some(0x43),
        KeyboardKey::KeyKPEqual => Some(0x51),
        KeyboardKey::KeyKPPlusMinus => None,
        KeyboardKey::KeyKPComma => None,
    }
}

/// The combined modifier-flag mask one launch applies to every event it
/// posts.  Left/right modifier distinctions collapse into single native
/// bits on this platform; a nonzero accumulated special-flags value is
/// folded in.
pub open spec fn mac_flags(m: KeyBondingModel, special_flags: u64) -> u64 {
    let f: u64 = CG_FLAG_NULL;
    let f: u64 = if m.has_shift {
        f | CG_FLAG_SHIFT
    } else {
        f
    };
    let f: u64 = if m.has_altgr || m.has_alt {
        f | CG_FLAG_ALTERNATE
    } else {
        f
    };
    let f: u64 = if m.has_rctrl || m.has_ctrl {
        f | CG_FLAG_CONTROL
    } else {
        f
    };
    if special_flags != CG_FLAG_NULL {
        f | special_flags
    } else {
        f
    }
}

/// The events one key contributes: its down post, the pause, its up
/// post; or nothing at all if the key has no native counterpart.
pub open spec fn mac_key_events(k: KeyboardKey, flags: u64, delay_ms: u64) -> Seq<NativeEvent> {
    match mac_keycode_spec(k) {
        Some(code) => seq![
            (NativeEvent::MacPost { keycode: code, flags: flags, pressed: true }),
            (NativeEvent::MacSleep { millis: delay_ms }),
            (NativeEvent::MacPost { keycode: code, flags: flags, pressed: false }),
        ],
        None => Seq::empty(),
    }
}

/// The events a key sequence contributes, key by key, in list order.
pub open spec fn mac_events_for_keys(keys: Seq<KeyboardKey>, flags: u64, delay_ms: u64) -> Seq<
    NativeEvent,
>
    decreases keys.len(),
{
    if keys.len() == 0 {
        Seq::empty()
    } else {
        mac_events_for_keys(keys.drop_last(), flags, delay_ms) + mac_key_events(
            keys.last(),
            flags,
            delay_ms,
        )
    }
}

/// The full macOS event sequence for one request.
pub open spec fn mac_action_events(m: KeyBondingModel, special_flags: u64, delay_ms: u64) -> Seq<
    NativeEvent,
> {
    mac_events_for_keys(m.keys, mac_flags(m, special_flags), delay_ms)
}

/// The macOS backend: the sequencing engine for session event posting.
/// It records the native events each launch issues, oldest first;
/// creating the per-event source contexts and posting to the session is
/// left to an unverified shell.  Construction never fails; the instance
/// only carries an accumulated special-flags value, folded into every
/// event's mask while nonzero.
pub struct MacOSKeyBD {
    pub special_flags: u64,
    /// The pause between a key's down post and its up post, tunable per
    /// instance; fresh instances use [`MAC_KEY_DELAY_MS`].
    pub key_delay_ms: u64,
    pub events: Vec<NativeEvent>,
}

impl MacOSKeyBD {
    /// A fresh macOS sequencing engine: null special flags, the default
    /// pause, an empty event history.
    pub fn new() -> (r: Result<MacOSKeyBD, String>)
        ensures
            r is Ok,
            r->Ok_0.special_flags == CG_FLAG_NULL,
            r->Ok_0.key_delay_ms == MAC_KEY_DELAY_MS,
            r->Ok_0.emitted() == Seq::<NativeEvent>::empty(),
    {
        Ok(
            MacOSKeyBD {
                special_flags: CG_FLAG_NULL,
                key_delay_ms: MAC_KEY_DELAY_MS,
                events: Vec::new(),
            },
        )
    }

    /// Executable form of [`mac_keycode_spec`]: the fixed translation
    /// table.
    pub fn convert_keycode(keycode: &KeyboardKey) -> (r: Option<u16>)
        ensures
            r == mac_keycode_spec(*keycode),
    {
        match keycode {
            KeyboardKey::KeySP1 => Some(0x0A),
            KeyboardKey::KeySP2 => Some(0x1B),
            KeyboardKey::KeySP3 => Some(0x18),
            KeyboardKey::KeySP4 => Some(0x21),
            KeyboardKey::KeySP5 => Some(0x1E),
            KeyboardKey::KeySP6 => Some(0x29),
            KeyboardKey::KeySP7 => Some(0x27),
            KeyboardKey::KeySP8 => Some(0x2A),
            KeyboardKey::KeySP9 => Some(0x2B),
            KeyboardKey::KeySP10 => Some(0x2F),
            KeyboardKey::KeySP11 => Some(0x2C),
            KeyboardKey::KeySP12 => Some(0x32),
            KeyboardKey::KeyUP => Some(0x7E),
            KeyboardKey::KeyDOWN => Some(0x7D),
            KeyboardKey::KeyLEFT => Some(0x7B),
            KeyboardKey::KeyRIGHT => Some(0x7C),
            KeyboardKey::KeyESC => Some(0x35),
            KeyboardKey::Key1 => Some(0x12),
            KeyboardKey::Key2 => Some(0x13),
            KeyboardKey::Key3 => Some(0x14),
            KeyboardKey::Key4 => Some(0x15),
            KeyboardKey::Key5 => Some(0x17),
            KeyboardKey::Key6 => Some(0x16),
            KeyboardKey::Key7 => Some(0x1A),
            KeyboardKey::Key8 => Some(0x1C),
            KeyboardKey::Key9 => Some(0x19),
            KeyboardKey::Key0 => Some(0x1D),
            KeyboardKey::KeyQ => Some(0x0C),
            KeyboardKey::KeyW => Some(0x0D),
            KeyboardKey::KeyE => Some(0x0E),
            KeyboardKey::KeyR => Some(0x0F),
            KeyboardKey::KeyT => Some(0x11),
            KeyboardKey::KeyY => Some(0x10),
            KeyboardKey::KeyU => Some(0x20),
            KeyboardKey::KeyI => Some(0x22),
            KeyboardKey::KeyO => Some(0x1F),
            KeyboardKey::KeyP => Some(0x23),
            KeyboardKey::KeyA => Some(0x00),
            KeyboardKey::KeyS => Some(0x01),
            KeyboardKey::KeyD => Some(0x02),
            KeyboardKey::KeyF => Some(0x03),
            KeyboardKey::KeyG => Some(0x05),
            KeyboardKey::KeyH => Some(0x04),
            KeyboardKey::KeyJ => Some(0x26),
            KeyboardKey::KeyK => Some(0x28),
            KeyboardKey::KeyL => Some(0x25),
            KeyboardKey::KeyZ => Some(0x06),
            KeyboardKey::KeyX => Some(0x07),
            KeyboardKey::KeyC => Some(0x08),
            KeyboardKey::KeyV => Some(0x09),
            KeyboardKey::KeyB => Some(0x0B),
            KeyboardKey::KeyN => Some(0x2D),
            KeyboardKey::KeyM => Some(0x2E),
            KeyboardKey::KeyF1 => Some(0x7A),
            KeyboardKey::KeyF2 => Some(0x78),
            KeyboardKey::KeyF3 => Some(0x63),
            KeyboardKey::KeyF4 => Some(0x76),
            KeyboardKey::KeyF5 => Some(0x60),
            KeyboardKey::KeyF6 => Some(0x61),
            KeyboardKey::KeyF7 => Some(0x62),
            KeyboardKey::KeyF8 => Some(0x64),
            KeyboardKey::KeyF9 => Some(0x65),
            KeyboardKey::KeyF10 => Some(0x6D),
            KeyboardKey::KeyF11 => Some(0x67),
            KeyboardKey::KeyF12 => Some(0x6F),
            KeyboardKey::KeyNUMLock => None,
            KeyboardKey::KeyScrollLock => None,
            KeyboardKey::KeyRESERVED => None,
            KeyboardKey::KeyBACKSPACE => Some(0x33),
            KeyboardKey::KeyTAB => Some(0x30),
            KeyboardKey::KeyENTER => Some(0x24),
            KeyboardKey::KeySPACE => Some(0x31),
            KeyboardKey::KeyCAPSLock => Some(0x39),
            KeyboardKey::KeyKP0 => Some(0x52),
            KeyboardKey::KeyKP1 => Some(0x53),
            KeyboardKey::KeyKP2 => Some(0x54),
            KeyboardKey::KeyKP3 => Some(0x55),
            KeyboardKey::KeyKP4 => Some(0x56),
            KeyboardKey::KeyKP5 => Some(0x57),
            KeyboardKey::KeyKP6 => Some(0x58),
            KeyboardKey::KeyKP7 => Some(0x59),
            KeyboardKey::KeyKP8 => Some(0x5B),
            KeyboardKey::KeyKP9 => Some(0x5C),
            KeyboardKey::KeyKPMinus => Some(0x4E),
            KeyboardKey::KeyKPPlus => Some(0x45),
            KeyboardKey::KeyKPDot => Some(0x41),
            KeyboardKey::KeyKPJPComma => None,
            KeyboardKey::KeyKPEnter => Some(0x4C),
            KeyboardKey::KeyKPSlash => Some(0x4B),
            KeyboardKey::KeyKPAsterisk => Some(0x43),
            KeyboardKey::KeyKPEqual => Some(0x51),
            KeyboardKey::KeyKPPlusMinus => None,
            KeyboardKey::KeyKPComma => None,
        }
    }

    /// Processes one key: translates it, and records its down post, the
    /// fixed pause and its up post, all carrying the launch's flag
    /// mask.  Fails, recording nothing, exactly when the key has no
    /// native counterpart.
    pub fn key_press(&mut self, key_code: &KeyboardKey, key_bonding: &KeyBonding) -> (r: Result<
        bool,
        String,
    >)
        ensures
            final(self).special_flags == old(self).special_flags,
            final(self).key_delay_ms == old(self).key_delay_ms,
            mac_keycode_spec(*key_code) is Some ==> (r == Result::<bool, String>::Ok(true)
                && final(self).events@ == old(self).events@ + mac_key_events(
                *key_code,
                mac_flags(key_bonding@, old(self).special_flags),
                old(self).key_delay_ms,
            )),
            mac_keycode_spec(*key_code) is None ==> (r matches Err(e) && e@ == "Not supported keys"@
                && final(self).events@ == old(self).events@),
    {
        let flags = compute_mac_flags(key_bonding, self.special_flags);
        match MacOSKeyBD::convert_keycode(key_code) {
            None => Err("Not supported keys".to_owned()),
            Some(code) => {
                self.events.push(NativeEvent::MacPost { keycode: code, flags, pressed: true });
                self.events.push(NativeEvent::MacSleep { millis: self.key_delay_ms });
                self.events.push(NativeEvent::MacPost { keycode: code, flags, pressed: false });
                proof {
                    assert(self.events@ =~= old(self).events@ + mac_key_events(
                        *key_code,
                        mac_flags(key_bonding@, old(self).special_flags),
                        old(self).key_delay_ms,
                    ));
                }
                Ok(true)
            },
        }
    }
}

/// Executable form of [`mac_flags`].
pub fn compute_mac_flags(kb: &KeyBonding, special_flags: u64) -> (r: u64)
    ensures
        r == mac_flags(kb@, special_flags),
{
    let mut f: u64 = CG_FLAG_NULL;
    if kb.has_shift {
        f |= CG_FLAG_SHIFT;
    }
    if kb.has_altgr || kb.has_alt {
        f |= CG_FLAG_ALTERNATE;
    }
    if kb.has_rctrl || kb.has_ctrl {
        f |= CG_FLAG_CONTROL;
    }
    if special_flags != CG_FLAG_NULL {
        f |= special_flags;
    }
    f
}

impl KBPlatform for MacOSKeyBD {
    open spec fn emitted(&self) -> Seq<NativeEvent> {
        self.events@
    }

    open spec fn action_events(&self, m: KeyBondingModel) -> Seq<NativeEvent> {
        mac_action_events(m, self.special_flags, self.key_delay_ms)
    }

    fn run_action(&mut self, key_bonding: KeyBonding) {
        let ghost orig = *self;
        let ghost flags = mac_flags(key_bonding@, orig.special_flags);
        let n = key_bonding.keys.len();
        for i in 0..n
            invariant
                n == key_bonding.keys.len(),
                flags == mac_flags(key_bonding@, orig.special_flags),
                self.special_flags == orig.special_flags,
                self.key_delay_ms == orig.key_delay_ms,
                self.events@ == orig.events@ + mac_events_for_keys(
                    key_bonding@.keys.take(i as int),
                    flags,
                    orig.key_delay_ms,
                ),
        {
            let k = key_bonding.keys[i];
            let ghost pre = self.events@;
            let _ = self.key_press(&k, &key_bonding);
            proof {
                let taken = key_bonding@.keys.take(i as int + 1);
                assert(taken.drop_last() =~= key_bonding@.keys.take(i as int));
                assert(taken.last() == key_bonding@.keys[i as int]);
                if mac_keycode_spec(k) is Some {
                    assert(self.events@ == pre + mac_key_events(k, flags, orig.key_delay_ms));
                } else {
                    assert(self.events@ == pre);
                    assert(mac_key_events(k, flags, orig.key_delay_ms) =~= Seq::<
                        NativeEvent,
                    >::empty());
                }
                assert(self.events@ =~= pre + mac_key_events(k, flags, orig.key_delay_ms));
                assert(orig.events@ + mac_events_for_keys(taken, flags, orig.key_delay_ms) =~= pre
                    + mac_key_events(k, flags, orig.key_delay_ms));
            }
        }
        proof {
            assert(key_bonding@.keys.take(n as int) =~= key_bonding@.keys);
            assert(orig.events@ + mac_events_for_keys(
                Seq::<KeyboardKey>::empty(),
                flags,
                orig.key_delay_ms,
            ) =~= orig.events@);
        }
    }
}

/// Computes the full macOS event sequence for one request snapshot, as
/// an instance carrying the given special flags and pause would post it.
pub fn macos_events(kb: &KeyBonding, special_flags: u64, delay_ms: u64) -> (r: Vec<NativeEvent>)
    ensures
        r@ == mac_action_events(kb@, special_flags, delay_ms),
{
    let mut engine = MacOSKeyBD { special_flags, key_delay_ms: delay_ms, events: Vec::new() };
    engine.run_action(kb.clone());
    engine.events
}

/// The keycodes the macOS table assigns to a key sequence's supported
/// keys, in list order.
pub open spec fn mac_supported_codes(keys: Seq<KeyboardKey>) -> Seq<u16>
    decreases keys.len(),
{
    if keys.len() == 0 {
        Seq::empty()
    } else {
        match mac_keycode_spec(keys.last()) {
            Some(code) => mac_supported_codes(keys.drop_last()) + seq![code],
            None => mac_supported_codes(keys.drop_last()),
        }
    }
}

/// The keycodes of the posted events of one direction (down or up) in an
/// event sequence, oldest first.
pub open spec fn mac_post_codes(events: Seq<NativeEvent>, pressed_sel: bool) -> Seq<u16>
    decreases events.len(),
{
    if events.len() == 0 {
        Seq::empty()
    } else {
        let rest = mac_post_codes(events.drop_last(), pressed_sel);
        match events.last() {
            NativeEvent::MacPost { keycode, flags, pressed } => if pressed == pressed_sel {
                rest + seq![keycode]
            } else {
                rest
            },
            _ => rest,
        }
    }
}

/// Supporting fact: post-code extraction distributes over concatenation.
proof fn lemma_mac_post_codes_add(a: Seq<NativeEvent>, b: Seq<NativeEvent>, pressed_sel: bool)
    ensures
        mac_post_codes(a + b, pressed_sel) == mac_post_codes(a, pressed_sel) + mac_post_codes(
            b,
            pressed_sel,
        ),
    decreases b.len(),
{
    if b.len() == 0 {
        assert(a + b =~= a);
        assert(mac_post_codes(a, pressed_sel) + mac_post_codes(b, pressed_sel) =~= mac_post_codes(
            a,
            pressed_sel,
        ));
    } else {
        lemma_mac_post_codes_add(a, b.drop_last(), pressed_sel);
        assert((a + b).drop_last() =~= a + b.drop_last());
        assert((a + b).last() == b.last());
        match b.last() {
            NativeEvent::MacPost { keycode, flags, pressed } => {
                if pressed == pressed_sel {
                    assert((mac_post_codes(a, pressed_sel) + mac_post_codes(
                        b.drop_last(),
                        pressed_sel,
                    )) + seq![keycode] =~= mac_post_codes(a, pressed_sel) + (mac_post_codes(
                        b.drop_last(),
                        pressed_sel,
                    ) + seq![keycode]));
                }
            },
            _ => {},
        }
    }
}

/// Supporting fact: per key sequence, the posted down codes and up codes
/// each equal the table's codes for the supported keys, in list order.
proof fn lemma_mac_keys_order(keys: Seq<KeyboardKey>, flags: u64, delay_ms: u64, pressed_sel: bool)
    ensures
        mac_post_codes(mac_events_for_keys(keys, flags, delay_ms), pressed_sel)
            == mac_supported_codes(keys),
    decreases keys.len(),
{
    if keys.len() > 0 {
        lemma_mac_keys_order(keys.drop_last(), flags, delay_ms, pressed_sel);
        lemma_mac_post_codes_add(
            mac_events_for_keys(keys.drop_last(), flags, delay_ms),
            mac_key_events(keys.last(), flags, delay_ms),
            pressed_sel,
        );
        match mac_keycode_spec(keys.last()) {
            Some(code) => {
                lemma_mac_post_codes_single(code, flags, delay_ms, pressed_sel);
                assert(mac_supported_codes(keys.drop_last()) + seq![code] =~= mac_supported_codes(
                    keys,
                ));
            },
            None => {
                assert(mac_post_codes(Seq::<NativeEvent>::empty(), pressed_sel) =~= Seq::<
                    u16,
                >::empty());
                assert(mac_supported_codes(keys.drop_last()) + Seq::<u16>::empty()
                    =~= mac_supported_codes(keys));
            },
        }
    }
}

/// Supporting fact: one supported key's three events contribute exactly
/// its code, in either direction.
proof fn lemma_mac_post_codes_single(code: u16, flags: u64, delay_ms: u64, pressed_sel: bool)
    ensures
        mac_post_codes(
            seq![
                (NativeEvent::MacPost { keycode: code, flags: flags, pressed: true }),
                (NativeEvent::MacSleep { millis: delay_ms }),
                (NativeEvent::MacPost { keycode: code, flags: flags, pressed: false }),
            ],
            pressed_sel,
        ) == seq![code],
{
    let e_down = NativeEvent::MacPost { keycode: code, flags: flags, pressed: true };
    let e_sleep = NativeEvent::MacSleep { millis: delay_ms };
    let e_up = NativeEvent::MacPost { keycode: code, flags: flags, pressed: false };
    let s3 = seq![e_down, e_sleep, e_up];
    let s2 = seq![e_down, e_sleep];
    let s1 = seq![e_down];
    let s0 = Seq::<NativeEvent>::empty();
    assert(s3.drop_last() =~= s2);
    assert(s2.drop_last() =~= s1);
    assert(s1.drop_last() =~= s0);
    assert(s3.last() == e_up);
    assert(s2.last() == e_sleep);
    assert(s1.last() == e_down);
    assert(mac_post_codes(s0, pressed_sel) =~= Seq::<u16>::empty());
    if pressed_sel {
        assert(mac_post_codes(s1, pressed_sel) =~= seq![code]);
        assert(mac_post_codes(s2, pressed_sel) == mac_post_codes(s1, pressed_sel));
        assert(mac_post_codes(s3, pressed_sel) == mac_post_codes(s2, pressed_sel));
    } else {
        assert(mac_post_codes(s1, pressed_sel) =~= Seq::<u16>::empty());
        assert(mac_post_codes(s2, pressed_sel) == mac_post_codes(s1, pressed_sel));
        assert(mac_post_codes(s3, pressed_sel) =~= mac_post_codes(s2, pressed_sel) + seq![code]);
        assert(Seq::<u16>::empty() + seq![code] =~= seq![code]);
    }
}

/// Law: the macOS protocol preserves the request's key order.  Among
/// the events one launch posts, the down events carry exactly the
/// supported keys' native codes in list order, and so do the up events;
/// unsupported keys contribute no event at all.
pub proof fn lemma_mac_event_order(m: KeyBondingModel, special_flags: u64, delay_ms: u64)
    ensures
        mac_post_codes(mac_action_events(m, special_flags, delay_ms), true)
            == mac_supported_codes(m.keys),
        mac_post_codes(mac_action_events(m, special_flags, delay_ms), false)
            == mac_supported_codes(m.keys),
{
    lemma_mac_keys_order(m.keys, mac_flags(m, special_flags), delay_ms, true);
    lemma_mac_keys_order(m.keys, mac_flags(m, special_flags), delay_ms, false);
}

} // verus!
