use zed::{
    load_default_keymap, observe_keymap_settings, user_keymap_update, BaseKeymapLayer,
    KeymapSettings, VIM_KEYMAP_PATH,
};

const DEFAULT: &str = "keymaps/default-linux.json";

#[test]
fn base_keymap_off_loads_nothing() {
    assert!(load_default_keymap(DEFAULT, &BaseKeymapLayer::Off, true).is_empty());
}

#[test]
fn default_keymap_alone() {
    assert_eq!(load_default_keymap(DEFAULT, &BaseKeymapLayer::DefaultOnly, false), vec![DEFAULT.to_string()]);
}

#[test]
fn vim_keymap_follows_default() {
    assert_eq!(
        load_default_keymap(DEFAULT, &BaseKeymapLayer::DefaultOnly, true),
        vec![DEFAULT.to_string(), "keymaps/vim.json".to_string()]
    );
    assert_eq!(VIM_KEYMAP_PATH, "keymaps/vim.json");
}

#[test]
fn base_asset_comes_last() {
    let base = BaseKeymapLayer::WithAsset("keymaps/atom.json".to_string());
    assert_eq!(
        load_default_keymap(DEFAULT, &base, true),
        vec![DEFAULT.to_string(), "keymaps/vim.json".to_string(), "keymaps/atom.json".to_string()]
    );
    assert_eq!(
        load_default_keymap(DEFAULT, &base, false),
        vec![DEFAULT.to_string(), "keymaps/atom.json".to_string()]
    );
}

#[test]
fn unchanged_keymap_settings_do_not_reload() {
    let mut last = KeymapSettings { base: BaseKeymapLayer::WithAsset("a".to_string()), vim_mode: false };
    let changed = observe_keymap_settings(
        &mut last,
        KeymapSettings { base: BaseKeymapLayer::WithAsset("a".to_string()), vim_mode: false },
    );
    assert!(!changed);
}

#[test]
fn vim_toggle_reloads_and_is_remembered() {
    let mut last = KeymapSettings { base: BaseKeymapLayer::DefaultOnly, vim_mode: false };
    assert!(observe_keymap_settings(&mut last, KeymapSettings { base: BaseKeymapLayer::DefaultOnly, vim_mode: true }));
    assert!(last.vim_mode);
    assert!(!observe_keymap_settings(&mut last, KeymapSettings { base: BaseKeymapLayer::DefaultOnly, vim_mode: true }));
}

#[test]
fn base_keymap_change_reloads() {
    let mut last = KeymapSettings { base: BaseKeymapLayer::WithAsset("a".to_string()), vim_mode: false };
    assert!(observe_keymap_settings(
        &mut last,
        KeymapSettings { base: BaseKeymapLayer::WithAsset("b".to_string()), vim_mode: false },
    ));
    assert!(matches!(&last.base, BaseKeymapLayer::WithAsset(p) if p == "b"));
    assert!(observe_keymap_settings(&mut last, KeymapSettings { base: BaseKeymapLayer::Off, vim_mode: false }));
}

#[test]
fn parsed_user_keymap_replaces_current() {
    let (k, e) = user_keymap_update::<&str, &str>("old", Ok("new"));
    assert_eq!(k, "new");
    assert_eq!(e, None);
}

#[test]
fn unparsable_user_keymap_keeps_current() {
    let (k, e) = user_keymap_update::<&str, &str>("old", Err("bad json"));
    assert_eq!(k, "old");
    assert_eq!(e, Some("bad json"));
}
