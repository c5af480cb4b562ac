use keybd_event::linux::{get_path_uinput, permission_error_message};
use keybd_event::windows::WindowsKeyBD;
use keybd_event::KeyboardKey::{KeyA, KeyB, KeyC, KeyX, KeyZ};
use keybd_event::{KBBackend, KeyBondingInstance, TargetOs};

#[test]
fn it_works() {
    let mut kb = KeyBondingInstance::new(TargetOs::Linux).unwrap();
    kb.has_shift(true);
    kb.add_keys(&[KeyA, KeyZ]);
    kb.launching();
}

#[test]
fn clear_resets_everything() {
    let mut kb = KeyBondingInstance::new(TargetOs::Linux).unwrap();
    kb.has_ctrl(true);
    kb.has_alt(true);
    kb.has_shift(true);
    kb.has_rctrl(true);
    kb.has_rshift(true);
    kb.has_altgr(true);
    kb.add_keys(&[KeyA, KeyZ]);
    kb.clear();
    let state = kb.get_state();
    assert!(!state.has_ctrl);
    assert!(!state.has_alt);
    assert!(!state.has_shift);
    assert!(!state.has_rctrl);
    assert!(!state.has_rshift);
    assert!(!state.has_altgr);
    assert_eq!(state.keys.len(), 0);
}

#[test]
fn add_keys_appends_in_order() {
    let mut kb = KeyBondingInstance::new(TargetOs::Windows).unwrap();
    kb.add_keys(&[KeyC]);
    kb.add_keys(&[KeyA, KeyB]);
    assert_eq!(kb.get_state().keys, vec![KeyC, KeyA, KeyB]);
}

#[test]
fn set_keys_replaces_wholly() {
    let mut kb = KeyBondingInstance::new(TargetOs::Windows).unwrap();
    kb.has_shift(true);
    kb.add_keys(&[KeyC, KeyA, KeyB]);
    kb.set_keys(vec![KeyX]);
    assert_eq!(kb.get_state().keys, vec![KeyX]);
    // Modifiers are untouched by a key replacement.
    assert!(kb.get_state().has_shift);
}

#[test]
fn add_key_appends_one() {
    let mut kb = KeyBondingInstance::new(TargetOs::MacOS).unwrap();
    kb.add_key(KeyA);
    kb.add_key(KeyA);
    assert_eq!(kb.get_state().keys, vec![KeyA, KeyA]);
}

#[test]
fn modifier_setters_are_independent() {
    let mut kb = KeyBondingInstance::new(TargetOs::Linux).unwrap();
    kb.has_rctrl(true);
    assert!(kb.get_state().has_rctrl);
    assert!(!kb.get_state().has_ctrl);
    kb.has_rctrl(false);
    assert!(!kb.get_state().has_rctrl);
}

#[test]
fn new_with_platform_injects_backend() {
    let backend = WindowsKeyBD::new().unwrap();
    let mut kb = KeyBondingInstance::new_with_platform(backend).unwrap();
    kb.add_key(KeyA);
    kb.launching();
    assert_eq!(kb.get_platform().events.len(), 2);
}

#[test]
fn new_selects_backend_by_target() {
    let kb = KeyBondingInstance::new(TargetOs::MacOS).unwrap();
    assert!(matches!(kb.get_platform(), KBBackend::MacOS(_)));
    let kb = KeyBondingInstance::new(TargetOs::Linux).unwrap();
    assert!(matches!(kb.get_platform(), KBBackend::Linux(_)));
    let kb = KeyBondingInstance::new(TargetOs::Windows).unwrap();
    assert!(matches!(kb.get_platform(), KBBackend::Windows(_)));
}

#[test]
fn uinput_path_prefers_dev_uinput() {
    assert_eq!(get_path_uinput(true, true).unwrap(), "/dev/uinput");
    assert_eq!(get_path_uinput(true, false).unwrap(), "/dev/uinput");
    assert_eq!(get_path_uinput(false, true).unwrap(), "/dev/input/uinput");
    assert_eq!(
        get_path_uinput(false, false).unwrap_err(),
        "Not found uinput file. Try this cmd 'sudo modprobe uinput'"
    );
}

#[test]
fn permission_message_names_path_twice() {
    assert_eq!(
        permission_error_message("/dev/uinput"),
        "permission error for /dev/uinput try cmd : sudo chmod +0666 /dev/uinput"
    );
}
