use keybd_event::key_value;
use keybd_event::linux::linux_events;
use keybd_event::macos::{macos_events, MacOSKeyBD};
use keybd_event::windows::{win_call, windows_events};
use keybd_event::KeyboardKey::{
    KeyA, KeyB, KeyESC, KeyKPComma, KeyNUMLock, KeyRESERVED, KeyZ,
};
use keybd_event::{KBBackend, KBPlatform, KeyBonding, KeyBondingInstance, NativeEvent, TargetOs};

fn request(keys: Vec<keybd_event::KeyboardKey>) -> KeyBonding {
    KeyBonding {
        has_ctrl: false,
        has_alt: false,
        has_shift: false,
        has_rctrl: false,
        has_rshift: false,
        has_altgr: false,
        keys,
    }
}

#[test]
fn canonical_values() {
    assert_eq!(key_value(KeyA), 30);
    assert_eq!(key_value(KeyZ), 44);
    assert_eq!(key_value(KeyESC), 1);
    assert_eq!(key_value(KeyRESERVED), 0);
    assert_eq!(key_value(KeyKPComma), 121);
}

#[test]
fn linux_shift_a_z_scenario() {
    let mut kb = KeyBondingInstance::new(TargetOs::Linux).unwrap();
    kb.has_shift(true);
    kb.add_keys(&[KeyA, KeyZ]);
    kb.launching();
    let events = match kb.get_platform() {
        KBBackend::Linux(b) => &b.events,
        _ => panic!("expected the Linux backend"),
    };
    assert_eq!(
        events,
        &vec![
            NativeEvent::LinuxKey { code: 42, pressed: true },
            NativeEvent::LinuxKey { code: 30, pressed: true },
            NativeEvent::LinuxKey { code: 44, pressed: true },
            NativeEvent::LinuxKey { code: 30, pressed: false },
            NativeEvent::LinuxKey { code: 44, pressed: false },
            NativeEvent::LinuxKey { code: 42, pressed: false },
            NativeEvent::LinuxSync,
        ]
    );
}

#[test]
fn linux_batches_downs_before_ups() {
    let evs = linux_events(&request(vec![KeyZ, KeyA, KeyZ]));
    assert_eq!(
        evs,
        vec![
            NativeEvent::LinuxKey { code: 44, pressed: true },
            NativeEvent::LinuxKey { code: 30, pressed: true },
            NativeEvent::LinuxKey { code: 44, pressed: true },
            NativeEvent::LinuxKey { code: 44, pressed: false },
            NativeEvent::LinuxKey { code: 30, pressed: false },
            NativeEvent::LinuxKey { code: 44, pressed: false },
            NativeEvent::LinuxSync,
        ]
    );
}

#[test]
fn linux_all_modifiers_order() {
    let mut req = request(vec![]);
    req.has_alt = true;
    req.has_altgr = true;
    req.has_shift = true;
    req.has_ctrl = true;
    req.has_rshift = true;
    req.has_rctrl = true;
    let evs = linux_events(&req);
    let downs: Vec<u8> = evs
        .iter()
        .filter_map(|e| match e {
            NativeEvent::LinuxKey { code, pressed: true } => Some(*code),
            _ => None,
        })
        .collect();
    let ups: Vec<u8> = evs
        .iter()
        .filter_map(|e| match e {
            NativeEvent::LinuxKey { code, pressed: false } => Some(*code),
            _ => None,
        })
        .collect();
    // alt, altgr (right alt), shift, ctrl, right shift, right ctrl;
    // released in the same order, not reversed.
    assert_eq!(downs, vec![56, 100, 42, 29, 54, 97]);
    assert_eq!(ups, vec![56, 100, 42, 29, 54, 97]);
    assert_eq!(evs.last(), Some(&NativeEvent::LinuxSync));
}

#[test]
fn macos_shift_a_scenario() {
    let mut kb = KeyBondingInstance::new(TargetOs::MacOS).unwrap();
    kb.has_shift(true);
    kb.add_key(KeyA);
    kb.launching();
    let events = match kb.get_platform() {
        KBBackend::MacOS(b) => &b.events,
        _ => panic!("expected the macOS backend"),
    };
    let shift_bit: u64 = 0x00020000;
    assert_eq!(
        events,
        &vec![
            NativeEvent::MacPost { keycode: 0x00, flags: shift_bit, pressed: true },
            NativeEvent::MacSleep { millis: 10 },
            NativeEvent::MacPost { keycode: 0x00, flags: shift_bit, pressed: false },
        ]
    );
}

#[test]
fn macos_unsupported_key_posts_nothing() {
    let mut kb = KeyBondingInstance::new(TargetOs::MacOS).unwrap();
    kb.add_key(KeyNUMLock);
    kb.launching();
    let events = match kb.get_platform() {
        KBBackend::MacOS(b) => &b.events,
        _ => panic!("expected the macOS backend"),
    };
    assert_eq!(events.len(), 0);
}

#[test]
fn macos_unsupported_key_is_observable_and_skipped() {
    let mut backend = MacOSKeyBD::new().unwrap();
    let req = request(vec![]);
    let err = backend.key_press(&KeyNUMLock, &req).unwrap_err();
    assert_eq!(err, "Not supported keys");
    assert_eq!(backend.events.len(), 0);
    // The other keys of the same request are still processed.
    backend.run_action(request(vec![KeyNUMLock, KeyA, KeyKPComma, KeyZ]));
    assert_eq!(
        backend.events,
        vec![
            NativeEvent::MacPost { keycode: 0x00, flags: 0, pressed: true },
            NativeEvent::MacSleep { millis: 10 },
            NativeEvent::MacPost { keycode: 0x00, flags: 0, pressed: false },
            NativeEvent::MacPost { keycode: 0x06, flags: 0, pressed: true },
            NativeEvent::MacSleep { millis: 10 },
            NativeEvent::MacPost { keycode: 0x06, flags: 0, pressed: false },
        ]
    );
}

#[test]
fn macos_table_spot_checks() {
    assert_eq!(MacOSKeyBD::convert_keycode(&KeyA), Some(0x00));
    assert_eq!(MacOSKeyBD::convert_keycode(&KeyZ), Some(0x06));
    assert_eq!(MacOSKeyBD::convert_keycode(&KeyNUMLock), None);
    assert_eq!(MacOSKeyBD::convert_keycode(&KeyRESERVED), None);
    assert_eq!(MacOSKeyBD::convert_keycode(&KeyKPComma), None);
}

#[test]
fn macos_special_flags_are_folded_in() {
    let backend = MacOSKeyBD { special_flags: 0x400, key_delay_ms: 10, events: vec![] };
    let mut kb = KeyBondingInstance::new_with_platform(backend).unwrap();
    kb.add_key(KeyA);
    kb.launching();
    assert_eq!(
        kb.get_platform().events[0],
        NativeEvent::MacPost { keycode: 0x00, flags: 0x400, pressed: true }
    );
}

#[test]
fn macos_pause_is_tunable() {
    let evs = macos_events(&request(vec![KeyA]), 0, 25);
    assert_eq!(evs[1], NativeEvent::MacSleep { millis: 25 });
}

#[test]
fn windows_ctrl_a_scenario() {
    let mut kb = KeyBondingInstance::new(TargetOs::Windows).unwrap();
    kb.has_ctrl(true);
    kb.add_key(KeyA);
    kb.launching();
    let events = match kb.get_platform() {
        KBBackend::Windows(b) => &b.events,
        _ => panic!("expected the Windows backend"),
    };
    assert_eq!(
        events,
        &vec![
            // Ctrl travels the virtual-key path: scan-code flag unset.
            NativeEvent::WinKeybd { vk: 0x11, scan: 0x91, dw_flags: 0x0000 },
            // KeyA's raw value 30 lies below the offset: scan-code flag set.
            NativeEvent::WinKeybd { vk: 30, scan: 158, dw_flags: 0x0008 },
            NativeEvent::WinKeybd { vk: 30, scan: 158, dw_flags: 0x000A },
            NativeEvent::WinKeybd { vk: 0x11, scan: 0x91, dw_flags: 0x0002 },
        ]
    );
}

#[test]
fn windows_interleaves_down_up_per_key() {
    let evs = windows_events(&request(vec![KeyA, KeyB, KeyA]));
    let a = key_value(KeyA);
    let b = key_value(KeyB);
    assert_eq!(
        evs,
        vec![
            NativeEvent::WinKeybd { vk: a, scan: a + 0x80, dw_flags: 0x0008 },
            NativeEvent::WinKeybd { vk: a, scan: a + 0x80, dw_flags: 0x000A },
            NativeEvent::WinKeybd { vk: b, scan: b + 0x80, dw_flags: 0x0008 },
            NativeEvent::WinKeybd { vk: b, scan: b + 0x80, dw_flags: 0x000A },
            NativeEvent::WinKeybd { vk: a, scan: a + 0x80, dw_flags: 0x0008 },
            NativeEvent::WinKeybd { vk: a, scan: a + 0x80, dw_flags: 0x000A },
        ]
    );
}

#[test]
fn windows_altgr_presses_alt_and_ctrl() {
    let mut req = request(vec![]);
    req.has_altgr = true;
    let evs = windows_events(&req);
    assert_eq!(
        evs,
        vec![
            NativeEvent::WinKeybd { vk: 0x12, scan: 0x92, dw_flags: 0x0000 },
            NativeEvent::WinKeybd { vk: 0x11, scan: 0x91, dw_flags: 0x0000 },
            NativeEvent::WinKeybd { vk: 0x12, scan: 0x92, dw_flags: 0x0002 },
            NativeEvent::WinKeybd { vk: 0x11, scan: 0x91, dw_flags: 0x0002 },
        ]
    );
}

#[test]
fn round_trip_of_key_a() {
    // The canonical value of KeyA is 30 on every platform.
    assert_eq!(key_value(KeyA), 30);
    // Linux emits the canonical value unchanged.
    let evs = linux_events(&request(vec![KeyA]));
    assert_eq!(evs[0], NativeEvent::LinuxKey { code: 30, pressed: true });
    // The macOS table assigns native code 0x00.
    assert_eq!(MacOSKeyBD::convert_keycode(&KeyA), Some(0x00));
    // On Windows, 30 lies below the virtual-key offset, so the call
    // travels the scan-code path with secondary byte 30 + 0x80 = 158.
    assert_eq!(
        win_call(30, false),
        NativeEvent::WinKeybd { vk: 30, scan: 158, dw_flags: 0x0008 }
    );
}

#[test]
fn windows_decodes_virtual_keys_above_offset() {
    // 0x10 + 0xFFF is Shift's encoded virtual-key value.
    assert_eq!(
        win_call(0x10 + 0xFFF, false),
        NativeEvent::WinKeybd { vk: 0x10, scan: 0x90, dw_flags: 0x0000 }
    );
    assert_eq!(
        win_call(0x10 + 0xFFF, true),
        NativeEvent::WinKeybd { vk: 0x10, scan: 0x90, dw_flags: 0x0002 }
    );
}

#[test]
fn launch_appends_to_history_and_keeps_state() {
    let mut kb = KeyBondingInstance::new(TargetOs::Windows).unwrap();
    kb.add_key(KeyA);
    kb.launching();
    kb.launching();
    let events = match kb.get_platform() {
        KBBackend::Windows(b) => &b.events,
        _ => panic!("expected the Windows backend"),
    };
    // Two identical launches: the same down+up pair twice.
    assert_eq!(events.len(), 4);
    assert_eq!(events[0], events[2]);
    assert_eq!(events[1], events[3]);
    assert_eq!(kb.get_state().keys, vec![KeyA]);
}
