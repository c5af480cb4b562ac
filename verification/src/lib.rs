//! A verified keyboard-input sequencing engine.
//!
//! One platform-neutral request (six modifier flags plus an ordered key
//! list) is turned into the exact sequence of low-level input events that
//! each supported operating system expects.  The sequencing protocols are
//! stated as specification functions and every backend is proved to emit
//! precisely the sequence its protocol demands; delivering the events to
//! the operating system is left to a thin unverified shell around this
//! library.
use vstd::prelude::*;

pub mod linux;
pub mod macos;
pub mod windows;

verus! {

/// Platform-neutral identifier for a physical keyboard key.
///
/// Each key carries a fixed canonical value (see [`key_value_spec`]), a
/// Linux-evdev-style number that is the wire contract shared by every
/// backend: backends interpret it, they never redefine it.
#[derive(Copy, Clone, Debug, PartialEq, Eq, Structural)]
pub enum KeyboardKey {
    KeySP1,
    KeySP2,
    KeySP3,
    KeySP4,
    KeySP5,
    KeySP6,
    KeySP7,
    KeySP8,
    KeySP9,
    KeySP10,
    KeySP11,
    KeySP12,
    KeyUP,
    KeyDOWN,
    KeyLEFT,
    KeyRIGHT,
    KeyESC,
    Key1,
    Key2,
    Key3,
    Key4,
    Key5,
    Key6,
    Key7,
    Key8,
    Key9,
    Key0,
    KeyQ,
    KeyW,
    KeyE,
    KeyR,
    KeyT,
    KeyY,
    KeyU,
    KeyI,
    KeyO,
    KeyP,
    KeyA,
    KeyS,
    KeyD,
    KeyF,
    KeyG,
    KeyH,
    KeyJ,
    KeyK,
    KeyL,
    KeyZ,
    KeyX,
    KeyC,
    KeyV,
    KeyB,
    KeyN,
    KeyM,
    KeyF1,
    KeyF2,
    KeyF3,
    KeyF4,
    KeyF5,
    KeyF6,
    KeyF7,
    KeyF8,
    KeyF9,
    KeyF10,
    KeyF11,
    KeyF12,
    KeyNUMLock,
    KeyScrollLock,
    KeyRESERVED,
    KeyBACKSPACE,
    KeyTAB,
    KeyENTER,
    KeySPACE,
    KeyCAPSLock,
    KeyKP0,
    KeyKP1,
    KeyKP2,
    KeyKP3,
    KeyKP4,
    KeyKP5,
    KeyKP6,
    KeyKP7,
    KeyKP8,
    KeyKP9,
    KeyKPMinus,
    KeyKPPlus,
    KeyKPDot,
    KeyKPJPComma,
    KeyKPEnter,
    KeyKPSlash,
    KeyKPAsterisk,
    KeyKPEqual,
    KeyKPPlusMinus,
    KeyKPComma,
}

/// The canonical value of each key: the stable, platform-neutral integer
/// that names the physical key.
pub open spec fn key_value_spec(k: KeyboardKey) -> u8 {
    match k {
        KeyboardKey::KeySP1 => 41,
        KeyboardKey::KeySP2 => 12,
        KeyboardKey::KeySP3 => 13,
        KeyboardKey::KeySP4 => 26,
        KeyboardKey::KeySP5 => 27,
        KeyboardKey::KeySP6 => 39,
        KeyboardKey::KeySP7 => 40,
        KeyboardKey::KeySP8 => 43,
        KeyboardKey::KeySP9 => 51,
        KeyboardKey::KeySP10 => 52,
        KeyboardKey::KeySP11 => 53,
        KeyboardKey::KeySP12 => 86,
        KeyboardKey::KeyUP => 103,
        KeyboardKey::KeyDOWN => 108,
        KeyboardKey::KeyLEFT => 105,
        KeyboardKey::KeyRIGHT => 106,
        KeyboardKey::KeyESC => 1,
        KeyboardKey::Key1 => 2,
        KeyboardKey::Key2 => 3,
        KeyboardKey::Key3 => 4,
        KeyboardKey::Key4 => 5,
        KeyboardKey::Key5 => 6,
        KeyboardKey::Key6 => 7,
        KeyboardKey::Key7 => 8,
        KeyboardKey::Key8 => 9,
        KeyboardKey::Key9 => 10,
        KeyboardKey::Key0 => 11,
        KeyboardKey::KeyQ => 16,
        KeyboardKey::KeyW => 17,
        KeyboardKey::KeyE => 18,
        KeyboardKey::KeyR => 19,
        KeyboardKey::KeyT => 20,
        KeyboardKey::KeyY => 21,
        KeyboardKey::KeyU => 22,
        KeyboardKey::KeyI => 23,
        KeyboardKey::KeyO => 24,
        KeyboardKey::KeyP => 25,
        KeyboardKey::KeyA => 30,
        KeyboardKey::KeyS => 31,
        KeyboardKey::KeyD => 32,
        KeyboardKey::KeyF => 33,
        KeyboardKey::KeyG => 34,
        KeyboardKey::KeyH => 35,
        KeyboardKey::KeyJ => 36,
        KeyboardKey::KeyK => 37,
        KeyboardKey::KeyL => 38,
        KeyboardKey::KeyZ => 44,
        KeyboardKey::KeyX => 45,
        KeyboardKey::KeyC => 46,
        KeyboardKey::KeyV => 47,
        KeyboardKey::KeyB => 48,
        KeyboardKey::KeyN => 49,
        KeyboardKey::KeyM => 50,
        KeyboardKey::KeyF1 => 59,
        KeyboardKey::KeyF2 => 60,
        KeyboardKey::KeyF3 => 61,
        KeyboardKey::KeyF4 => 62,
        KeyboardKey::KeyF5 => 63,
        KeyboardKey::KeyF6 => 64,
        KeyboardKey::KeyF7 => 65,
        KeyboardKey::KeyF8 => 66,
        KeyboardKey::KeyF9 => 67,
        KeyboardKey::KeyF10 => 68,
        KeyboardKey::KeyF11 => 87,
        KeyboardKey::KeyF12 => 88,
        KeyboardKey::KeyNUMLock => 69,
        KeyboardKey::KeyScrollLock => 70,
        KeyboardKey::KeyRESERVED => 0,
        KeyboardKey::KeyBACKSPACE => 14,
        KeyboardKey::KeyTAB => 15,
        KeyboardKey::KeyENTER => 28,
        KeyboardKey::KeySPACE => 57,
        KeyboardKey::KeyCAPSLock => 58,
        KeyboardKey::KeyKP0 => 82,
        KeyboardKey::KeyKP1 => 79,
        KeyboardKey::KeyKP2 => 80,
        KeyboardKey::KeyKP3 => 81,
        KeyboardKey::KeyKP4 => 75,
        KeyboardKey::KeyKP5 => 76,
        KeyboardKey::KeyKP6 => 77,
        KeyboardKey::KeyKP7 => 71,
        KeyboardKey::KeyKP8 => 72,
        KeyboardKey::KeyKP9 => 73,
        KeyboardKey::KeyKPMinus => 74,
        KeyboardKey::KeyKPPlus => 78,
        KeyboardKey::KeyKPDot => 83,
        KeyboardKey::KeyKPJPComma => 95,
        KeyboardKey::KeyKPEnter => 96,
        KeyboardKey::KeyKPSlash => 98,
        KeyboardKey::KeyKPAsterisk => 55,
        KeyboardKey::KeyKPEqual => 117,
        KeyboardKey::KeyKPPlusMinus => 118,
        KeyboardKey::KeyKPComma => 121,
    }
}

/// Executable form of [`key_value_spec`].
pub fn key_value(k: KeyboardKey) -> (v: u8)
    ensures
        v == key_value_spec(k),
{
    match k {
        KeyboardKey::KeySP1 => 41,
        KeyboardKey::KeySP2 => 12,
        KeyboardKey::KeySP3 => 13,
        KeyboardKey::KeySP4 => 26,
        KeyboardKey::KeySP5 => 27,
        KeyboardKey::KeySP6 => 39,
        KeyboardKey::KeySP7 => 40,
        KeyboardKey::KeySP8 => 43,
        KeyboardKey::KeySP9 => 51,
        KeyboardKey::KeySP10 => 52,
        KeyboardKey::KeySP11 => 53,
        KeyboardKey::KeySP12 => 86,
        KeyboardKey::KeyUP => 103,
        KeyboardKey::KeyDOWN => 108,
        KeyboardKey::KeyLEFT => 105,
        KeyboardKey::KeyRIGHT => 106,
        KeyboardKey::KeyESC => 1,
        KeyboardKey::Key1 => 2,
        KeyboardKey::Key2 => 3,
        KeyboardKey::Key3 => 4,
        KeyboardKey::Key4 => 5,
        KeyboardKey::Key5 => 6,
        KeyboardKey::Key6 => 7,
        KeyboardKey::Key7 => 8,
        KeyboardKey::Key8 => 9,
        KeyboardKey::Key9 => 10,
        KeyboardKey::Key0 => 11,
        KeyboardKey::KeyQ => 16,
        KeyboardKey::KeyW => 17,
        KeyboardKey::KeyE => 18,
        KeyboardKey::KeyR => 19,
        KeyboardKey::KeyT => 20,
        KeyboardKey::KeyY => 21,
        KeyboardKey::KeyU => 22,
        KeyboardKey::KeyI => 23,
        KeyboardKey::KeyO => 24,
        KeyboardKey::KeyP => 25,
        KeyboardKey::KeyA => 30,
        KeyboardKey::KeyS => 31,
        KeyboardKey::KeyD => 32,
        KeyboardKey::KeyF => 33,
        KeyboardKey::KeyG => 34,
        KeyboardKey::KeyH => 35,
        KeyboardKey::KeyJ => 36,
        KeyboardKey::KeyK => 37,
        KeyboardKey::KeyL => 38,
        KeyboardKey::KeyZ => 44,
        KeyboardKey::KeyX => 45,
        KeyboardKey::KeyC => 46,
        KeyboardKey::KeyV => 47,
        KeyboardKey::KeyB => 48,
        KeyboardKey::KeyN => 49,
        KeyboardKey::KeyM => 50,
        KeyboardKey::KeyF1 => 59,
        KeyboardKey::KeyF2 => 60,
        KeyboardKey::KeyF3 => 61,
        KeyboardKey::KeyF4 => 62,
        KeyboardKey::KeyF5 => 63,
        KeyboardKey::KeyF6 => 64,
        KeyboardKey::KeyF7 => 65,
        KeyboardKey::KeyF8 => 66,
        KeyboardKey::KeyF9 => 67,
        KeyboardKey::KeyF10 => 68,
        KeyboardKey::KeyF11 => 87,
        KeyboardKey::KeyF12 => 88,
        KeyboardKey::KeyNUMLock => 69,
        KeyboardKey::KeyScrollLock => 70,
        KeyboardKey::KeyRESERVED => 0,
        KeyboardKey::KeyBACKSPACE => 14,
        KeyboardKey::KeyTAB => 15,
        KeyboardKey::KeyENTER => 28,
        KeyboardKey::KeySPACE => 57,
        KeyboardKey::KeyCAPSLock => 58,
        KeyboardKey::KeyKP0 => 82,
        KeyboardKey::KeyKP1 => 79,
        KeyboardKey::KeyKP2 => 80,
        KeyboardKey::KeyKP3 => 81,
        KeyboardKey::KeyKP4 => 75,
        KeyboardKey::KeyKP5 => 76,
        KeyboardKey::KeyKP6 => 77,
        KeyboardKey::KeyKP7 => 71,
        KeyboardKey::KeyKP8 => 72,
        KeyboardKey::KeyKP9 => 73,
        KeyboardKey::KeyKPMinus => 74,
        KeyboardKey::KeyKPPlus => 78,
        KeyboardKey::KeyKPDot => 83,
        KeyboardKey::KeyKPJPComma => 95,
        KeyboardKey::KeyKPEnter => 96,
        KeyboardKey::KeyKPSlash => 98,
        KeyboardKey::KeyKPAsterisk => 55,
        KeyboardKey::KeyKPEqual => 117,
        KeyboardKey::KeyKPPlusMinus => 118,
        KeyboardKey::KeyKPComma => 121,
    }
}

/// One low-level input event as handed to an operating system's
/// injection sink.  Each backend only ever emits the variants of its own
/// platform; keeping them in one type lets every backend publish its
/// emitted sequence through the same [`KBPlatform`] interface.
#[derive(Copy, Clone, Debug, PartialEq, Eq, Structural)]
pub enum NativeEvent {
    /// A Linux evdev key event: `write(EV_KEY, code, 1 or 0)`.
    LinuxKey { code: u8, pressed: bool },
    /// A Linux device flush: `synchronize()`.
    LinuxSync,
    /// A macOS keyboard event posted to the session, with its flag mask.
    MacPost { keycode: u16, flags: u64, pressed: bool },
    /// The pause between a macOS down event and its up event.
    MacSleep { millis: u64 },
    /// A Windows `keybd_event` call: virtual-key byte, scan byte, flag word.
    WinKeybd { vk: u8, scan: u8, dw_flags: u16 },
}

/// The key request state: six independent modifier flags plus the
/// ordered key sequence (duplicates allowed; the order is press order and
/// is preserved end-to-end by every backend).
#[derive(Debug)]
pub struct KeyBonding {
    pub has_ctrl: bool,
    pub has_alt: bool,
    pub has_shift: bool,
    pub has_rctrl: bool,
    pub has_rshift: bool,
    pub has_altgr: bool,
    pub keys: Vec<KeyboardKey>,
}

/// The mathematical view of a [`KeyBonding`].
pub struct KeyBondingModel {
    pub has_ctrl: bool,
    pub has_alt: bool,
    pub has_shift: bool,
    pub has_rctrl: bool,
    pub has_rshift: bool,
    pub has_altgr: bool,
    pub keys: Seq<KeyboardKey>,
}

impl View for KeyBonding {
    type V = KeyBondingModel;

    open spec fn view(&self) -> KeyBondingModel {
        KeyBondingModel {
            has_ctrl: self.has_ctrl,
            has_alt: self.has_alt,
            has_shift: self.has_shift,
            has_rctrl: self.has_rctrl,
            has_rshift: self.has_rshift,
            has_altgr: self.has_altgr,
            keys: self.keys@,
        }
    }
}

/// The state a fresh or cleared request holds: all six modifiers false
/// and an empty key sequence.
pub open spec fn empty_key_bonding() -> KeyBondingModel {
    KeyBondingModel {
        has_ctrl: false,
        has_alt: false,
        has_shift: false,
        has_rctrl: false,
        has_rshift: false,
        has_altgr: false,
        keys: Seq::empty(),
    }
}

fn copy_keys(keys: &Vec<KeyboardKey>) -> (r: Vec<KeyboardKey>)
    ensures
        r@ == keys@,
{
    let mut out: Vec<KeyboardKey> = Vec::new();
    for i in 0..keys.len()
        invariant
            out@ == keys@.take(i as int),
    {
        out.push(keys[i]);
        proof {
            keys@.lemma_take_succ_push(i as int);
        }
    }
    proof {
        keys@.lemma_take_len();
    }
    out
}

impl Clone for KeyBonding {
    /// A clone carries exactly the same modifiers and key sequence.
    fn clone(&self) -> (r: Self)
        ensures
            r@ == self@,
    {
        KeyBonding {
            has_ctrl: self.has_ctrl,
            has_alt: self.has_alt,
            has_shift: self.has_shift,
            has_rctrl: self.has_rctrl,
            has_rshift: self.has_rshift,
            has_altgr: self.has_altgr,
            keys: copy_keys(&self.keys),
        }
    }
}

/// The platform backend capability: every backend turns one request
/// snapshot into native events.
///
/// `emitted` is the backend's whole output history, oldest event first;
/// `action_events` is the protocol itself, the exact event sequence one
/// launch of a given request issues.  `run_action` must append exactly
/// that sequence and must not change the protocol.  Callers may supply
/// their own backend through
/// [`KeyBondingInstance::new_with_platform`]; a backend implemented
/// outside this library is not checked against this contract.
pub trait KBPlatform: Sized {
    /// All native events this backend has issued so far, oldest first.
    /// The default (an empty history, for backends supplied from
    /// outside this library) carries no verified meaning.
    open spec fn emitted(&self) -> Seq<NativeEvent> {
        Seq::empty()
    }

    /// The native event sequence that one launch of request `m` issues.
    /// The default (an empty protocol, for backends supplied from
    /// outside this library) carries no verified meaning.
    open spec fn action_events(&self, m: KeyBondingModel) -> Seq<NativeEvent> {
        Seq::empty()
    }

    /// Issue the full native event sequence for one request snapshot.
    fn run_action(&mut self, key_bonding: KeyBonding)
        ensures
            final(self).emitted() == old(self).emitted() + old(self).action_events(key_bonding@),
            forall|m: KeyBondingModel| #[trigger] final(self).action_events(m) == old(
                self,
            ).action_events(m),
    ;
}

/// The facade: owns exactly one backend, proxies the request-state
/// mutators, and drives execution.
pub struct KeyBondingInstance<P: KBPlatform> {
    key_bonding: KeyBonding,
    platform: P,
}

impl<P: KBPlatform> KeyBondingInstance<P> {
    /// The current request state.
    pub closed spec fn state(&self) -> KeyBondingModel {
        self.key_bonding@
    }

    /// The owned backend.
    pub closed spec fn backend(&self) -> P {
        self.platform
    }

    /// Creates an instance around a caller-supplied backend, with a
    /// fresh (all-false, empty) request state.  Never fails.
    pub fn new_with_platform(platform: P) -> (r: Result<KeyBondingInstance<P>, String>)
        ensures
            r is Ok,
            r->Ok_0.state() == empty_key_bonding(),
            r->Ok_0.backend() == platform,
    {
        Ok(
            KeyBondingInstance {
                key_bonding: KeyBonding {
                    has_ctrl: false,
                    has_alt: false,
                    has_shift: false,
                    has_rctrl: false,
                    has_rshift: false,
                    has_altgr: false,
                    keys: Vec::new(),
                },
                platform,
            },
        )
    }

    /// Read access to the owned backend (for inspecting its emitted
    /// event history).
    pub fn get_platform(&self) -> (r: &P)
        ensures
            *r == self.backend(),
    {
        &self.platform
    }

    /// Read access to the current request state.
    pub fn get_state(&self) -> (r: &KeyBonding)
        ensures
            r@ == self.state(),
    {
        &self.key_bonding
    }

    /// Resets the request to the all-false, empty default.
    pub fn clear(&mut self)
        ensures
            final(self).state() == empty_key_bonding(),
            final(self).backend() == old(self).backend(),
    {
        self.key_bonding = KeyBonding {
            has_ctrl: false,
            has_alt: false,
            has_shift: false,
            has_rctrl: false,
            has_rshift: false,
            has_altgr: false,
            keys: Vec::new(),
        };
    }

    /// Replaces the key sequence wholly; modifiers are untouched.
    pub fn set_keys(&mut self, keys: Vec<KeyboardKey>)
        ensures
            final(self).state() == (KeyBondingModel { keys: keys@, ..old(self).state() }),
            final(self).backend() == old(self).backend(),
    {
        self.key_bonding.keys = keys;
    }

    /// Appends the given keys, in order, to the key sequence.
    pub fn add_keys(&mut self, keys: &[KeyboardKey])
        ensures
            final(self).state() == (KeyBondingModel {
                keys: old(self).state().keys + keys@,
                ..old(self).state()
            }),
            final(self).backend() == old(self).backend(),
    {
        let ghost orig = self.key_bonding.keys@;
        for i in 0..keys.len()
            invariant
                self.key_bonding.keys@ == orig + keys@.take(i as int),
                self.platform == old(self).platform,
                self.key_bonding.has_ctrl == old(self).key_bonding.has_ctrl,
                self.key_bonding.has_alt == old(self).key_bonding.has_alt,
                self.key_bonding.has_shift == old(self).key_bonding.has_shift,
                self.key_bonding.has_rctrl == old(self).key_bonding.has_rctrl,
                self.key_bonding.has_rshift == old(self).key_bonding.has_rshift,
                self.key_bonding.has_altgr == old(self).key_bonding.has_altgr,
        {
            self.key_bonding.keys.push(keys[i]);
            proof {
                keys@.lemma_take_succ_push(i as int);
                assert(orig + keys@.take(i as int + 1) == (orig + keys@.take(i as int)).push(
                    keys@[i as int],
                ));
            }
        }
        proof {
            keys@.lemma_take_len();
        }
    }

    /// Appends one key to the key sequence.
    pub fn add_key(&mut self, key: KeyboardKey)
        ensures
            final(self).state() == (KeyBondingModel {
                keys: old(self).state().keys.push(key),
                ..old(self).state()
            }),
            final(self).backend() == old(self).backend(),
    {
        self.key_bonding.keys.push(key);
    }

    /// Sets the left-shift modifier flag.
    pub fn has_shift(&mut self, b: bool)
        ensures
            final(self).state() == (KeyBondingModel { has_shift: b, ..old(self).state() }),
            final(self).backend() == old(self).backend(),
    {
        self.key_bonding.has_shift = b;
    }

    /// Sets the left-alt modifier flag.
    pub fn has_alt(&mut self, b: bool)
        ensures
            final(self).state() == (KeyBondingModel { has_alt: b, ..old(self).state() }),
            final(self).backend() == old(self).backend(),
    {
        self.key_bonding.has_alt = b;
    }

    /// Sets the left-control modifier flag.
    pub fn has_ctrl(&mut self, b: bool)
        ensures
            final(self).state() == (KeyBondingModel { has_ctrl: b, ..old(self).state() }),
            final(self).backend() == old(self).backend(),
    {
        self.key_bonding.has_ctrl = b;
    }

    /// Sets the right-control modifier flag.
    pub fn has_rctrl(&mut self, b: bool)
        ensures
            final(self).state() == (KeyBondingModel { has_rctrl: b, ..old(self).state() }),
            final(self).backend() == old(self).backend(),
    {
        self.key_bonding.has_rctrl = b;
    }

    /// Sets the right-shift modifier flag.
    pub fn has_rshift(&mut self, b: bool)
        ensures
            final(self).state() == (KeyBondingModel { has_rshift: b, ..old(self).state() }),
            final(self).backend() == old(self).backend(),
    {
        self.key_bonding.has_rshift = b;
    }

    /// Sets the alt-gr (right alt) modifier flag.
    pub fn has_altgr(&mut self, b: bool)
        ensures
            final(self).state() == (KeyBondingModel { has_altgr: b, ..old(self).state() }),
            final(self).backend() == old(self).backend(),
    {
        self.key_bonding.has_altgr = b;
    }

    /// Launches the simulation: snapshots the current request state and
    /// hands the snapshot to the backend, which issues exactly the
    /// native event sequence its protocol assigns to that state.  Later
    /// mutation of the live request cannot affect an in-flight launch.
    pub fn launching(&mut self)
        ensures
            final(self).state() == old(self).state(),
            final(self).backend().emitted() == old(self).backend().emitted() + old(
                self,
            ).backend().action_events(old(self).state()),
            forall|m: KeyBondingModel| #[trigger] final(self).backend().action_events(m) == old(
                self,
            ).backend().action_events(m),
    {
        let snapshot = self.key_bonding.clone();
        self.platform.run_action(snapshot);
    }
}

/// The platform token a caller hands to [`KeyBondingInstance::new`] to
/// pick the built-in backend for its target operating system.
#[derive(Copy, Clone, Debug, PartialEq, Eq, Structural)]
pub enum TargetOs {
    Linux,
    MacOS,
    Windows,
}

/// The built-in backends as variants behind the one capability
/// interface, so that one instance type serves every target.
pub enum KBBackend {
    Linux(linux::LinuxKeyBD),
    MacOS(macos::MacOSKeyBD),
    Windows(windows::WindowsKeyBD),
}

impl KBPlatform for KBBackend {
    open spec fn emitted(&self) -> Seq<NativeEvent> {
        match self {
            KBBackend::Linux(b) => b.emitted(),
            KBBackend::MacOS(b) => b.emitted(),
            KBBackend::Windows(b) => b.emitted(),
        }
    }

    open spec fn action_events(&self, m: KeyBondingModel) -> Seq<NativeEvent> {
        match self {
            KBBackend::Linux(b) => b.action_events(m),
            KBBackend::MacOS(b) => b.action_events(m),
            KBBackend::Windows(b) => b.action_events(m),
        }
    }

    fn run_action(&mut self, key_bonding: KeyBonding) {
        match self {
            KBBackend::Linux(b) => b.run_action(key_bonding),
            KBBackend::MacOS(b) => b.run_action(key_bonding),
            KBBackend::Windows(b) => b.run_action(key_bonding),
        }
    }
}

/// The built-in sequencing backend for a target, fresh (no event
/// emitted yet, and on macOS null special flags).
pub fn get_platform(target: TargetOs) -> (r: Result<KBBackend, String>)
    ensures
        r is Ok,
        r->Ok_0.emitted() == Seq::<NativeEvent>::empty(),
        (r->Ok_0 is Linux) == (target == TargetOs::Linux),
        (r->Ok_0 is MacOS) == (target == TargetOs::MacOS),
        (r->Ok_0 is Windows) == (target == TargetOs::Windows),
        target == TargetOs::MacOS ==> r->Ok_0->MacOS_0.special_flags == macos::CG_FLAG_NULL
            && r->Ok_0->MacOS_0.key_delay_ms == macos::MAC_KEY_DELAY_MS,
{
    match target {
        TargetOs::Linux => match linux::LinuxKeyBD::new() {
            Ok(b) => Ok(KBBackend::Linux(b)),
            Err(e) => Err(e),
        },
        TargetOs::MacOS => match macos::MacOSKeyBD::new() {
            Ok(b) => Ok(KBBackend::MacOS(b)),
            Err(e) => Err(e),
        },
        TargetOs::Windows => match windows::WindowsKeyBD::new() {
            Ok(b) => Ok(KBBackend::Windows(b)),
            Err(e) => Err(e),
        },
    }
}

impl KeyBondingInstance<KBBackend> {
    /// Creates an instance with the built-in backend for the given
    /// target, and a fresh (all-false, empty) request state.  Never
    /// fails: every target has a built-in sequencing backend.
    pub fn new(target: TargetOs) -> (r: Result<KeyBondingInstance<KBBackend>, String>)
        ensures
            r is Ok,
            r->Ok_0.state() == empty_key_bonding(),
            r->Ok_0.backend().emitted() == Seq::<NativeEvent>::empty(),
            (r->Ok_0.backend() is Linux) == (target == TargetOs::Linux),
            (r->Ok_0.backend() is MacOS) == (target == TargetOs::MacOS),
            (r->Ok_0.backend() is Windows) == (target == TargetOs::Windows),
            target == TargetOs::MacOS ==> r->Ok_0.backend()->MacOS_0.special_flags
                == macos::CG_FLAG_NULL && r->Ok_0.backend()->MacOS_0.key_delay_ms
                == macos::MAC_KEY_DELAY_MS,
    {
        let platform = match get_platform(target) {
            Ok(p) => p,
            Err(error) => {
                return Err(error);
            },
        };
        KeyBondingInstance::new_with_platform(platform)
    }
}

} // verus!
