use frame_pipeline::keys::{Key, KeyState, TEXTURE_CHOICES};

fn all_keys() -> Vec<Key> {
    vec![Key::Y, Key::Tab, Key::P, Key::L, Key::R, Key::Z, Key::B, Key::Escape, Key::Other]
}

#[test]
fn default_flags_are_off() {
    let keys = KeyState::default();
    assert!(!keys.show_depth);
    assert!(!keys.alt_shape);
    assert!(!keys.alt_image);
    assert!(!keys.tex_loop);
    assert!(!keys.screenshot);
    assert!(!keys.rotate);
    assert!(!keys.tab);
    assert_eq!(keys.tab_index, 0);
    assert!(!keys.background);
}

#[test]
fn each_key_flips_its_own_flag() {
    let mut keys = KeyState::default();
    assert!(keys.press(Key::Y));
    assert_eq!(keys, KeyState { alt_shape: true, ..KeyState::default() });
    let mut keys = KeyState::default();
    assert!(keys.press(Key::Tab));
    assert_eq!(keys, KeyState { tab: true, ..KeyState::default() });
    let mut keys = KeyState::default();
    assert!(keys.press(Key::P));
    assert_eq!(keys, KeyState { screenshot: true, ..KeyState::default() });
    let mut keys = KeyState::default();
    assert!(keys.press(Key::L));
    assert_eq!(keys, KeyState { tex_loop: true, ..KeyState::default() });
    let mut keys = KeyState::default();
    assert!(keys.press(Key::R));
    assert_eq!(keys, KeyState { rotate: true, ..KeyState::default() });
    let mut keys = KeyState::default();
    assert!(keys.press(Key::Z));
    assert_eq!(keys, KeyState { show_depth: true, ..KeyState::default() });
    let mut keys = KeyState::default();
    assert!(keys.press(Key::B));
    assert_eq!(keys, KeyState { background: true, ..KeyState::default() });
}

#[test]
fn keys_without_flag_change_nothing() {
    let mut keys = KeyState { rotate: true, tab_index: 3, ..KeyState::default() };
    let before = keys;
    assert!(!keys.press(Key::Other));
    assert!(!keys.press(Key::Escape));
    assert_eq!(keys, before);
}

#[test]
fn second_press_undoes_the_first() {
    for key in all_keys() {
        let mut keys = KeyState { show_depth: true, tab_index: 2, ..KeyState::default() };
        let before = keys;
        keys.press(key);
        keys.press(key);
        assert_eq!(keys, before);
    }
}

#[test]
fn take_tab_advances_once_and_wraps() {
    let mut keys = KeyState::default();
    assert_eq!(keys.take_tab(), 0);
    keys.press(Key::Tab);
    assert_eq!(keys.take_tab(), 1);
    assert!(!keys.tab);
    assert_eq!(keys.take_tab(), 1);
    assert_eq!(keys.take_tab(), 1);
    let mut seen = vec![];
    for _ in 0..TEXTURE_CHOICES {
        keys.press(Key::Tab);
        seen.push(keys.take_tab());
    }
    assert_eq!(seen, vec![2, 3, 4, 0, 1]);
}

#[test]
fn take_screenshot_is_served_once() {
    let mut keys = KeyState::default();
    assert!(!keys.take_screenshot());
    keys.press(Key::P);
    assert!(keys.take_screenshot());
    assert!(!keys.screenshot);
    for _ in 0..10 {
        assert!(!keys.take_screenshot());
    }
}

#[test]
fn validity_of_flags() {
    let mut keys = KeyState::default();
    assert!(keys.is_valid());
    keys.tab_index = TEXTURE_CHOICES - 1;
    assert!(keys.is_valid());
    keys.tab_index = TEXTURE_CHOICES;
    assert!(!keys.is_valid());
    keys.tab_index = usize::MAX;
    assert!(!keys.is_valid());
}
