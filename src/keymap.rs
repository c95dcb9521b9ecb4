use vstd::prelude::*;
use vstd::string::*;
use crate::text::same_text;

verus! {

/// Asset holding the bindings that vim mode adds.
pub const VIM_KEYMAP_PATH: &'static str = "keymaps/vim.json";

/// What the base keymap chosen in the settings contributes.
#[derive(Debug)]
pub enum BaseKeymapLayer {
    /// No base keymap: not even the default bindings are loaded.
    Off,
    /// The default bindings alone.
    DefaultOnly,
    /// The default bindings, then those of this asset.
    WithAsset(String),
}

/// The keymap settings that decide which assets are loaded.
#[derive(Debug)]
pub struct KeymapSettings {
    pub base: BaseKeymapLayer,
    pub vim_mode: bool,
}

/// Whether two base keymap choices are the same.
pub open spec fn same_layer(a: BaseKeymapLayer, b: BaseKeymapLayer) -> bool {
    match (a, b) {
        (BaseKeymapLayer::Off, BaseKeymapLayer::Off) => true,
        (BaseKeymapLayer::DefaultOnly, BaseKeymapLayer::DefaultOnly) => true,
        (BaseKeymapLayer::WithAsset(x), BaseKeymapLayer::WithAsset(y)) => x@ == y@,
        _ => false,
    }
}

/// Whether two keymap settings load the same assets.
pub open spec fn same_settings(a: KeymapSettings, b: KeymapSettings) -> bool {
    same_layer(a.base, b.base) && a.vim_mode == b.vim_mode
}

/// The assets to load for the built-in bindings, in order: nothing when the
/// base keymap is off; else the default keymap, then the vim bindings when
/// vim mode is on, then the base keymap's own asset if it has one.
pub open spec fn default_keymap_assets(
    default_path: Seq<char>,
    base: BaseKeymapLayer,
    vim_mode: bool,
) -> Seq<Seq<char>> {
    let vim: Seq<Seq<char>> = if vim_mode {
        seq![VIM_KEYMAP_PATH@]
    } else {
        Seq::empty()
    };
    match base {
        BaseKeymapLayer::Off => Seq::empty(),
        BaseKeymapLayer::DefaultOnly => seq![default_path] + vim,
        BaseKeymapLayer::WithAsset(p) => seq![default_path] + vim + seq![p@],
    }
}

/// The text of each string of `v`.
pub open spec fn texts(v: Seq<String>) -> Seq<Seq<char>> {
    v.map_values(|s: String| s@)
}

/// Lists the assets that make up the built-in key bindings, in the order in
/// which they are loaded (see `default_keymap_assets`). `default_path` is
/// the platform's default keymap.
pub fn load_default_keymap(default_path: &str, base: &BaseKeymapLayer, vim_mode: bool) -> (r: Vec<
    String,
>)
    ensures
        texts(r@) == default_keymap_assets(default_path@, *base, vim_mode),
{
    let mut assets: Vec<String> = Vec::new();
    match base {
        BaseKeymapLayer::Off => {
            assert(texts(assets@) =~= default_keymap_assets(default_path@, *base, vim_mode));
            return assets;
        },
        _ => {},
    }
    assets.push(String::from_str(default_path));
    if vim_mode {
        assets.push(String::from_str(VIM_KEYMAP_PATH));
    }
    match base {
        BaseKeymapLayer::WithAsset(p) => assets.push(p.clone()),
        _ => {},
    }
    assert(texts(assets@) =~= default_keymap_assets(default_path@, *base, vim_mode));
    assets
}

/// Compares two base keymap choices.
fn layers_equal(a: &BaseKeymapLayer, b: &BaseKeymapLayer) -> (r: bool)
    ensures
        r == same_layer(*a, *b),
{
    match (a, b) {
        (BaseKeymapLayer::Off, BaseKeymapLayer::Off) => true,
        (BaseKeymapLayer::DefaultOnly, BaseKeymapLayer::DefaultOnly) => true,
        (BaseKeymapLayer::WithAsset(x), BaseKeymapLayer::WithAsset(y)) => same_text(x.as_str(), y.as_str()),
        _ => false,
    }
}

/// Takes the keymap settings after a settings change. When they differ from
/// the last ones seen, they are remembered and the keymaps must be reloaded
/// (the result is true); otherwise nothing changes.
pub fn observe_keymap_settings(last: &mut KeymapSettings, current: KeymapSettings) -> (changed:
    bool)
    ensures
        changed == !same_settings(*old(last), current),
        changed ==> *final(last) == current,
        !changed ==> *final(last) == *old(last),
{
    if layers_equal(&last.base, &current.base) && last.vim_mode == current.vim_mode {
        false
    } else {
        *last = current;
        true
    }
}

/// Takes a newly read user keymap file once parsed. A keymap that parses
/// replaces the current one and clears the error; one that does not leaves
/// the current keymap in use and reports the error. The bindings are
/// reloaded either way.
pub fn user_keymap_update<K, E>(current: K, parsed: Result<K, E>) -> (r: (K, Option<E>))
    ensures
        match parsed {
            Ok(k) => r.0 == k && r.1 is None,
            Err(e) => r.0 == current && r.1 == Some(e),
        },
{
    match parsed {
        Ok(k) => (k, None),
        Err(e) => (current, Some(e)),
    }
}

} // verus!
