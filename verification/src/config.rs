//! Operating-mode configurations, global and UI settings, their
//! validation, and the repair that restores an invalid configuration to a
//! usable one.
//!
//! Validation never mutates; repair (`fix_invalid_values`) always leaves a
//! configuration that validation accepts.

use crate::keymap::KeyTable;
use vstd::prelude::*;

verus! {

/// Which automation behavior set is active.
#[derive(Debug, Clone, Copy, PartialEq, Eq, Hash, Structural)]
pub enum OperationMode {
    /// Replay preset action sequences.
    Macro,
    /// Image-recognition driven operation.
    Intelligent,
}

/// UI color theme.
#[derive(Debug, Clone, Copy, PartialEq, Eq, Structural)]
pub enum Theme {
    Light,
    Dark,
    Auto,
}

/// When the overlay is drawn.
#[derive(Debug, Clone, Copy, PartialEq, Eq, Structural)]
pub enum OverlayDisplayMode {
    Always,
    WhenForeground,
    OnlyAboveProgram,
}

/// The characters of the Unicode White_Space set — exactly the ones a
/// trim would strip.
pub open spec fn whitespace_char(c: char) -> bool {
    ||| c == '\u{0009}'
    ||| c == '\u{000A}'
    ||| c == '\u{000B}'
    ||| c == '\u{000C}'
    ||| c == '\u{000D}'
    ||| c == '\u{0020}'
    ||| c == '\u{0085}'
    ||| c == '\u{00A0}'
    ||| c == '\u{1680}'
    ||| c == '\u{2000}'
    ||| c == '\u{2001}'
    ||| c == '\u{2002}'
    ||| c == '\u{2003}'
    ||| c == '\u{2004}'
    ||| c == '\u{2005}'
    ||| c == '\u{2006}'
    ||| c == '\u{2007}'
    ||| c == '\u{2008}'
    ||| c == '\u{2009}'
    ||| c == '\u{200A}'
    ||| c == '\u{2028}'
    ||| c == '\u{2029}'
    ||| c == '\u{202F}'
    ||| c == '\u{205F}'
    ||| c == '\u{3000}'
}

fn is_whitespace_char(c: char) -> (r: bool)
    ensures
        r == whitespace_char(c),
{
    c == '\u{0009}' || c == '\u{000A}' || c == '\u{000B}' || c == '\u{000C}' || c == '\u{000D}'
        || c == '\u{0020}' || c == '\u{0085}' || c == '\u{00A0}' || c == '\u{1680}'
        || c == '\u{2000}' || c == '\u{2001}' || c == '\u{2002}' || c == '\u{2003}'
        || c == '\u{2004}' || c == '\u{2005}' || c == '\u{2006}' || c == '\u{2007}'
        || c == '\u{2008}' || c == '\u{2009}' || c == '\u{200A}' || c == '\u{2028}'
        || c == '\u{2029}' || c == '\u{202F}' || c == '\u{205F}' || c == '\u{3000}'
}

/// A string is blank when it trims to nothing: every character belongs to
/// the Unicode White_Space set.
pub open spec fn blank(s: Seq<char>) -> bool {
    forall|i: int| 0 <= i < s.len() ==> whitespace_char(#[trigger] s[i])
}

/// Whether a String holds only whitespace (or nothing).
pub fn is_blank(s: &String) -> (r: bool)
    ensures
        r == blank(s@),
{
    let st = s.as_str();
    let n = st.unicode_len();
    let mut i: usize = 0;
    while i < n
        invariant
            n == s@.len(),
            st@ == s@,
            i <= n,
            forall|j: int| 0 <= j < i ==> whitespace_char(#[trigger] s@[j]),
        decreases n - i,
    {
        let c = st.get_char(i);
        if !is_whitespace_char(c) {
            return false;
        }
        i = i + 1;
    }
    true
}

fn string_is(s: &String, t: &str) -> (r: bool)
    ensures
        r == (s@ == t@),
{
    let tt = t.to_owned();
    *s == tt
}

/// The key has a non-blank binding in the table.
pub open spec fn key_ok(m: Map<Seq<char>, Seq<char>>, k: Seq<char>) -> bool {
    m.contains_key(k) && !blank(m[k])
}

/// Every operation the automation can trigger by hotkey.
pub open spec fn required_ops() -> Seq<Seq<char>> {
    seq!["deploy_operator"@, "activate_skill"@, "retreat_operator"@, "focus_view"@, "pause_game"@]
}

/// A hotkey map is complete when every required operation has a non-blank
/// binding.
pub open spec fn hotkeys_valid(m: Map<Seq<char>, Seq<char>>) -> bool {
    &&& key_ok(m, "deploy_operator"@)
    &&& key_ok(m, "activate_skill"@)
    &&& key_ok(m, "retreat_operator"@)
    &&& key_ok(m, "focus_view"@)
    &&& key_ok(m, "pause_game"@)
}

/// Every in-game function driven through the global key map.
pub open spec fn required_game_functions() -> Seq<Seq<char>> {
    seq!["battle_speed"@, "skill_activation"@, "retreat_operator"@, "exit_return"@]
}

pub open spec fn game_keys_valid(m: Map<Seq<char>, Seq<char>>) -> bool {
    &&& key_ok(m, "battle_speed"@)
    &&& key_ok(m, "skill_activation"@)
    &&& key_ok(m, "retreat_operator"@)
    &&& key_ok(m, "exit_return"@)
}

/// The name is one of the required hotkey operations.
pub open spec fn is_required_op(k: Seq<char>) -> bool {
    k == "deploy_operator"@ || k == "activate_skill"@ || k == "retreat_operator"@ || k
        == "focus_view"@ || k == "pause_game"@
}

/// The stock binding of a required operation.
pub open spec fn default_hotkey(k: Seq<char>) -> Seq<char> {
    if k == "deploy_operator"@ {
        "1"@
    } else if k == "activate_skill"@ {
        "2"@
    } else if k == "retreat_operator"@ {
        "3"@
    } else if k == "focus_view"@ {
        "4"@
    } else {
        "Space"@
    }
}

/// The name is one of the required in-game functions.
pub open spec fn is_required_game_function(k: Seq<char>) -> bool {
    k == "battle_speed"@ || k == "skill_activation"@ || k == "retreat_operator"@ || k
        == "exit_return"@
}

/// The stock binding of a required in-game function.
pub open spec fn default_game_key(k: Seq<char>) -> Seq<char> {
    if k == "battle_speed"@ {
        "2"@
    } else if k == "skill_activation"@ {
        "Space"@
    } else if k == "retreat_operator"@ {
        "Delete"@
    } else {
        "Escape"@
    }
}

/// How hotkey repair relates the old map to the new one: every required
/// operation that was missing or blank is rebound to its stock key, every
/// sound required binding and every unrelated entry is kept as it was.
pub open spec fn hotkeys_fixed(o: Map<Seq<char>, Seq<char>>, n: Map<Seq<char>, Seq<char>>) -> bool {
    &&& forall|k: Seq<char>|
        is_required_op(k) ==> #[trigger] n.contains_key(k) && (if key_ok(o, k) {
            n[k] == o[k]
        } else {
            n[k] == default_hotkey(k)
        })
    &&& forall|k: Seq<char>|
        !is_required_op(k) ==> (#[trigger] n.contains_key(k) <==> o.contains_key(k)) && (
        o.contains_key(k) ==> n[k] == o[k])
}

/// How game-key repair relates the old map to the new one; the analogue
/// of `hotkeys_fixed` for the global in-game key map.
pub open spec fn game_keys_fixed(o: Map<Seq<char>, Seq<char>>, n: Map<Seq<char>, Seq<char>>) -> bool {
    &&& forall|k: Seq<char>|
        is_required_game_function(k) ==> #[trigger] n.contains_key(k) && (if key_ok(o, k) {
            n[k] == o[k]
        } else {
            n[k] == default_game_key(k)
        })
    &&& forall|k: Seq<char>|
        !is_required_game_function(k) ==> (#[trigger] n.contains_key(k) <==> o.contains_key(k))
            && (o.contains_key(k) ==> n[k] == o[k])
}

/// The stock hotkey map both mode defaults start from.
pub open spec fn default_hotkeys_map() -> Map<Seq<char>, Seq<char>> {
    Map::empty().insert("deploy_operator"@, "1"@).insert("activate_skill"@, "2"@).insert(
        "retreat_operator"@,
        "3"@,
    ).insert("focus_view"@, "4"@).insert("pause_game"@, "Space"@)
}

/// The stock in-game key map of the default global settings.
pub open spec fn default_game_keys_map() -> Map<Seq<char>, Seq<char>> {
    Map::empty().insert("battle_speed"@, "2"@).insert("skill_activation"@, "Space"@).insert(
        "retreat_operator"@,
        "Delete"@,
    ).insert("exit_return"@, "Escape"@)
}

pub open spec fn supported_feature(f: Seq<char>) -> bool {
    f == "small_number_selection"@ || f == "auto_skill_timing"@ || f == "smart_deployment"@
}

pub open spec fn supported_language(l: Seq<char>) -> bool {
    l == "zh-CN"@ || l == "zh-TW"@ || l == "en-US"@ || l == "ja-JP"@ || l == "ko-KR"@
}

/// The supported features of a list, in their original order.
pub open spec fn supported_filter(fs: Seq<Seq<char>>) -> Seq<Seq<char>>
    decreases fs.len(),
{
    if fs.len() == 0 {
        Seq::empty()
    } else {
        supported_filter(fs.drop_last()) + (if supported_feature(fs.last()) {
            seq![fs.last()]
        } else {
            Seq::empty()
        })
    }
}

/// Every entry of the filtered list is a supported feature.
proof fn lemma_supported_filter_ok(fs: Seq<Seq<char>>)
    ensures
        forall|i: int|
            0 <= i < supported_filter(fs).len() ==> supported_feature(
                #[trigger] supported_filter(fs)[i],
            ),
    decreases fs.len(),
{
    if fs.len() > 0 {
        lemma_supported_filter_ok(fs.drop_last());
        let pre = supported_filter(fs.drop_last());
        assert forall|i: int| 0 <= i < supported_filter(fs).len()
            implies supported_feature(#[trigger] supported_filter(fs)[i]) by {
            if i < pre.len() {
                assert(supported_filter(fs)[i] == pre[i]);
            } else {
                assert(supported_filter(fs)[i] == fs.last());
            }
        }
    }
}

/// How feature repair relates the old list to the new one: unsupported
/// entries are dropped, the kept ones stay in order, and the stock
/// feature stands in when nothing survives.
pub open spec fn features_fixed(o: Seq<Seq<char>>, n: Seq<Seq<char>>) -> bool {
    if supported_filter(o).len() == 0 {
        n == seq!["small_number_selection"@]
    } else {
        n == supported_filter(o)
    }
}

/// The hotkey operation names are pairwise distinct and the stock
/// bindings are visible characters.
pub(crate) proof fn lemma_hotkey_literals()
    ensures
        "deploy_operator"@ != "activate_skill"@,
        "deploy_operator"@ != "retreat_operator"@,
        "deploy_operator"@ != "focus_view"@,
        "deploy_operator"@ != "pause_game"@,
        "activate_skill"@ != "retreat_operator"@,
        "activate_skill"@ != "focus_view"@,
        "activate_skill"@ != "pause_game"@,
        "retreat_operator"@ != "focus_view"@,
        "retreat_operator"@ != "pause_game"@,
        "focus_view"@ != "pause_game"@,
        !blank("1"@),
        !blank("2"@),
        !blank("3"@),
        !blank("4"@),
        !blank("Space"@),
{
    reveal_strlit("deploy_operator");
    reveal_strlit("activate_skill");
    reveal_strlit("retreat_operator");
    reveal_strlit("focus_view");
    reveal_strlit("pause_game");
    reveal_strlit("1");
    reveal_strlit("2");
    reveal_strlit("3");
    reveal_strlit("4");
    reveal_strlit("Space");
    assert("deploy_operator"@.len() == 15);
    assert("activate_skill"@.len() == 14);
    assert("retreat_operator"@.len() == 16);
    assert("focus_view"@.len() == 10);
    assert("pause_game"@.len() == 10);
    assert("focus_view"@[0] == 'f');
    assert("pause_game"@[0] == 'p');
    assert("1"@.len() == 1 && "1"@[0] == '1');
    assert("2"@.len() == 1 && "2"@[0] == '2');
    assert("3"@.len() == 1 && "3"@[0] == '3');
    assert("4"@.len() == 1 && "4"@[0] == '4');
    assert("Space"@.len() == 5 && "Space"@[0] == 'S');
}

/// The in-game function names are pairwise distinct and the stock keys
/// are visible characters.
pub(crate) proof fn lemma_game_key_literals()
    ensures
        "battle_speed"@ != "skill_activation"@,
        "battle_speed"@ != "retreat_operator"@,
        "battle_speed"@ != "exit_return"@,
        "skill_activation"@ != "retreat_operator"@,
        "skill_activation"@ != "exit_return"@,
        "retreat_operator"@ != "exit_return"@,
        !blank("2"@),
        !blank("Space"@),
        !blank("Delete"@),
        !blank("Escape"@),
{
    reveal_strlit("battle_speed");
    reveal_strlit("skill_activation");
    reveal_strlit("retreat_operator");
    reveal_strlit("exit_return");
    reveal_strlit("2");
    reveal_strlit("Space");
    reveal_strlit("Delete");
    reveal_strlit("Escape");
    assert("battle_speed"@.len() == 12);
    assert("skill_activation"@.len() == 16);
    assert("retreat_operator"@.len() == 16);
    assert("exit_return"@.len() == 11);
    assert("skill_activation"@[0] == 's');
    assert("retreat_operator"@[0] == 'r');
    assert("2"@.len() == 1 && "2"@[0] == '2');
    assert("Space"@.len() == 5 && "Space"@[0] == 'S');
    assert("Delete"@.len() == 6 && "Delete"@[0] == 'D');
    assert("Escape"@.len() == 6 && "Escape"@[0] == 'E');
}

fn key_ok_exec(t: &KeyTable, name: &str) -> (r: bool)
    requires
        t.wf(),
    ensures
        r == key_ok(t@, name@),
{
    match t.get(name) {
        Some(v) => !is_blank(v),
        None => false,
    }
}

/// Restore the binding of `name` to `value` unless it is already present
/// and non-blank.
fn fix_key(t: &mut KeyTable, name: &str, value: &str)
    requires
        old(t).wf(),
        !blank(value@),
    ensures
        final(t).wf(),
        key_ok(final(t)@, name@),
        key_ok(old(t)@, name@) ==> final(t)@ == old(t)@,
        !key_ok(old(t)@, name@) ==> final(t)@ == old(t)@.insert(name@, value@),
        forall|k: Seq<char>| k != name@ && old(t)@.contains_key(k)
            ==> final(t)@.contains_key(k) && final(t)@[k] == old(t)@[k],
        forall|k: Seq<char>| k != name@ && !old(t)@.contains_key(k) ==> !final(t)@.contains_key(k),
{
    if !key_ok_exec(t, name) {
        t.insert(name.to_owned(), value.to_owned());
    }
}

/// Overlay drawing parameters.
#[derive(Debug, Clone, Copy, PartialEq, Eq, Structural)]
pub struct OverlaySettings {
    pub enabled: bool,
    pub display_mode: OverlayDisplayMode,
    /// Opacity percentage, 0 to 100.
    pub transparency: u8,
}

impl OverlaySettings {
    pub open spec fn spec_valid(self) -> bool {
        self.transparency <= 100
    }

    /// Accepts exactly the settings whose transparency is a percentage.
    pub fn validate(&self) -> (r: Result<(), String>)
        ensures
            r is Ok <==> self.spec_valid(),
    {
        if self.transparency > 100 {
            return Err("transparency out of range".to_owned());
        }
        Ok(())
    }

    /// How repair relates old overlay settings to new ones: valid
    /// settings are untouched, an out-of-range transparency is clamped to
    /// 100, and nothing else changes.
    pub open spec fn spec_fixed(o: OverlaySettings, n: OverlaySettings) -> bool {
        &&& n.spec_valid()
        &&& n.enabled == o.enabled
        &&& n.display_mode == o.display_mode
        &&& (o.spec_valid() ==> n == o)
        &&& (!o.spec_valid() ==> n.transparency == 100)
    }

    /// Clamp the transparency into range; afterwards validation accepts.
    pub fn fix_invalid_values(&mut self)
        ensures
            final(self).spec_valid(),
            OverlaySettings::spec_fixed(*old(self), *final(self)),
    {
        if self.transparency > 100 {
            self.transparency = 100;
        }
    }
}

impl Default for OverlaySettings {
    fn default() -> (c: Self)
        ensures
            c == (OverlaySettings {
                enabled: true,
                display_mode: OverlayDisplayMode::WhenForeground,
                transparency: 80,
            }),
    {
        OverlaySettings {
            enabled: true,
            display_mode: OverlayDisplayMode::WhenForeground,
            transparency: 80,
        }
    }
}

/// Configuration of the macro (preset-sequence) mode.
#[derive(Debug, Clone)]
pub struct MacroModeConfig {
    pub hotkeys: KeyTable,
    pub overlay_settings: OverlaySettings,
    pub battle_detection_enabled: bool,
}

impl MacroModeConfig {
    pub open spec fn wf(self) -> bool {
        self.hotkeys.wf()
    }

    pub open spec fn spec_valid(self) -> bool {
        hotkeys_valid(self.hotkeys@) && self.overlay_settings.spec_valid()
    }

    /// The configuration is exactly the stock one.
    pub open spec fn is_default(self) -> bool {
        &&& self.wf()
        &&& self.hotkeys@ == default_hotkeys_map()
        &&& self.hotkeys.spec_len() == 5
        &&& self.overlay_settings == OverlaySettings::default_spec()
        &&& self.battle_detection_enabled == true
    }

    /// How repair relates an old configuration to a new one.
    pub open spec fn spec_fixed(o: MacroModeConfig, n: MacroModeConfig) -> bool {
        &&& n.wf()
        &&& hotkeys_fixed(o.hotkeys@, n.hotkeys@)
        &&& OverlaySettings::spec_fixed(o.overlay_settings, n.overlay_settings)
        &&& n.battle_detection_enabled == o.battle_detection_enabled
    }

    /// Accepts exactly the configurations with a complete, non-blank
    /// hotkey map and in-range overlay settings.
    pub fn validate(&self) -> (r: Result<(), String>)
        requires
            self.wf(),
        ensures
            r is Ok <==> self.spec_valid(),
    {
        if !key_ok_exec(&self.hotkeys, "deploy_operator") {
            return Err("missing or blank hotkey: deploy_operator".to_owned());
        }
        if !key_ok_exec(&self.hotkeys, "activate_skill") {
            return Err("missing or blank hotkey: activate_skill".to_owned());
        }
        if !key_ok_exec(&self.hotkeys, "retreat_operator") {
            return Err("missing or blank hotkey: retreat_operator".to_owned());
        }
        if !key_ok_exec(&self.hotkeys, "focus_view") {
            return Err("missing or blank hotkey: focus_view".to_owned());
        }
        if !key_ok_exec(&self.hotkeys, "pause_game") {
            return Err("missing or blank hotkey: pause_game".to_owned());
        }
        self.overlay_settings.validate()
    }

    /// Restore every missing or blank required hotkey to its stock key,
    /// leave every other binding as it was, and clamp the overlay
    /// settings; afterwards validation accepts.
    pub fn fix_invalid_values(&mut self)
        requires
            old(self).wf(),
        ensures
            final(self).wf(),
            final(self).spec_valid(),
            Self::spec_fixed(*old(self), *final(self)),
            old(self).spec_valid() ==> final(self).hotkeys@ == old(self).hotkeys@
                && final(self).overlay_settings == old(self).overlay_settings,
    {
        proof {
            lemma_hotkey_literals();
        }
        let ghost m0 = self.hotkeys@;
        fix_key(&mut self.hotkeys, "deploy_operator", "1");
        fix_key(&mut self.hotkeys, "activate_skill", "2");
        fix_key(&mut self.hotkeys, "retreat_operator", "3");
        fix_key(&mut self.hotkeys, "focus_view", "4");
        fix_key(&mut self.hotkeys, "pause_game", "Space");
        proof {
            assert(hotkeys_fixed(m0, self.hotkeys@));
        }
        self.overlay_settings.fix_invalid_values();
    }
}

impl Default for MacroModeConfig {
    /// The stock bindings: number keys for the operations, space to pause.
    fn default() -> (c: Self)
        ensures
            c.is_default(),
            c.wf(),
            c.spec_valid(),
            c.hotkeys.spec_len() == 5,
            c.hotkeys@["deploy_operator"@] == "1"@,
            c.hotkeys@["activate_skill"@] == "2"@,
            c.hotkeys@["retreat_operator"@] == "3"@,
            c.hotkeys@["focus_view"@] == "4"@,
            c.hotkeys@["pause_game"@] == "Space"@,
            c.overlay_settings == OverlaySettings::default_spec(),
            c.battle_detection_enabled == true,
    {
        let mut hotkeys = KeyTable::new();
        hotkeys.insert("deploy_operator".to_owned(), "1".to_owned());
        hotkeys.insert("activate_skill".to_owned(), "2".to_owned());
        hotkeys.insert("retreat_operator".to_owned(), "3".to_owned());
        hotkeys.insert("focus_view".to_owned(), "4".to_owned());
        hotkeys.insert("pause_game".to_owned(), "Space".to_owned());
        proof {
            lemma_hotkey_literals();
            assert(hotkeys@ =~= default_hotkeys_map());
        }
        MacroModeConfig {
            hotkeys,
            overlay_settings: OverlaySettings::default(),
            battle_detection_enabled: true,
        }
    }
}

impl OverlaySettings {
    /// The defaults as a spec value, for stating other defaults.
    pub open spec fn default_spec() -> OverlaySettings {
        OverlaySettings {
            enabled: true,
            display_mode: OverlayDisplayMode::WhenForeground,
            transparency: 80,
        }
    }
}

/// Configuration of the intelligent (image-recognition) mode.
#[derive(Debug, Clone)]
pub struct IntelligentModeConfig {
    pub hotkeys: KeyTable,
    pub overlay_settings: OverlaySettings,
    pub intelligent_features: Vec<String>,
}

impl IntelligentModeConfig {
    pub open spec fn wf(self) -> bool {
        self.hotkeys.wf()
    }

    pub open spec fn features_ok(self) -> bool {
        forall|i: int|
            0 <= i < self.intelligent_features@.len() ==> supported_feature(
                (#[trigger] self.intelligent_features@[i])@,
            )
    }

    pub open spec fn spec_valid(self) -> bool {
        hotkeys_valid(self.hotkeys@) && self.features_ok() && self.overlay_settings.spec_valid()
    }

    /// The feature names, as character sequences.
    pub open spec fn feature_views(self) -> Seq<Seq<char>> {
        self.intelligent_features@.map_values(|s: String| s@)
    }

    /// The configuration is exactly the stock one.
    pub open spec fn is_default(self) -> bool {
        &&& self.wf()
        &&& self.hotkeys@ == default_hotkeys_map()
        &&& self.hotkeys.spec_len() == 5
        &&& self.overlay_settings == OverlaySettings::default_spec()
        &&& self.feature_views() == seq!["small_number_selection"@]
    }

    /// How repair relates an old configuration to a new one.
    pub open spec fn spec_fixed(o: IntelligentModeConfig, n: IntelligentModeConfig) -> bool {
        &&& n.wf()
        &&& hotkeys_fixed(o.hotkeys@, n.hotkeys@)
        &&& OverlaySettings::spec_fixed(o.overlay_settings, n.overlay_settings)
        &&& features_fixed(o.feature_views(), n.feature_views())
    }

    /// Accepts exactly the configurations with a complete hotkey map,
    /// only supported intelligent features, and in-range overlay settings.
    pub fn validate(&self) -> (r: Result<(), String>)
        requires
            self.wf(),
        ensures
            r is Ok <==> self.spec_valid(),
    {
        if !key_ok_exec(&self.hotkeys, "deploy_operator") {
            return Err("missing or blank hotkey: deploy_operator".to_owned());
        }
        if !key_ok_exec(&self.hotkeys, "activate_skill") {
            return Err("missing or blank hotkey: activate_skill".to_owned());
        }
        if !key_ok_exec(&self.hotkeys, "retreat_operator") {
            return Err("missing or blank hotkey: retreat_operator".to_owned());
        }
        if !key_ok_exec(&self.hotkeys, "focus_view") {
            return Err("missing or blank hotkey: focus_view".to_owned());
        }
        if !key_ok_exec(&self.hotkeys, "pause_game") {
            return Err("missing or blank hotkey: pause_game".to_owned());
        }
        let n = self.intelligent_features.len();
        let mut i: usize = 0;
        while i < n
            invariant
                self.wf(),
                n == self.intelligent_features@.len(),
                i <= n,
                forall|j: int|
                    0 <= j < i ==> supported_feature((#[trigger] self.intelligent_features@[j])@),
            decreases n - i,
        {
            let f = &self.intelligent_features[i];
            if !(string_is(f, "small_number_selection") || string_is(f, "auto_skill_timing")
                || string_is(f, "smart_deployment")) {
                return Err("unsupported intelligent feature".to_owned());
            }
            i = i + 1;
        }
        self.overlay_settings.validate()
    }

    /// Restore missing hotkeys to their stock keys, drop unsupported
    /// features keeping the rest in order (falling back to the stock
    /// feature when none survives), and clamp the overlay settings;
    /// afterwards validation accepts.
    pub fn fix_invalid_values(&mut self)
        requires
            old(self).wf(),
        ensures
            final(self).wf(),
            final(self).spec_valid(),
            Self::spec_fixed(*old(self), *final(self)),
            final(self).intelligent_features@.len() >= 1,
    {
        proof {
            lemma_hotkey_literals();
        }
        let ghost m0 = self.hotkeys@;
        fix_key(&mut self.hotkeys, "deploy_operator", "1");
        fix_key(&mut self.hotkeys, "activate_skill", "2");
        fix_key(&mut self.hotkeys, "retreat_operator", "3");
        fix_key(&mut self.hotkeys, "focus_view", "4");
        fix_key(&mut self.hotkeys, "pause_game", "Space");
        proof {
            assert(hotkeys_fixed(m0, self.hotkeys@));
        }
        let ghost fviews = self.intelligent_features@.map_values(|s: String| s@);
        let n = self.intelligent_features.len();
        let mut kept: Vec<String> = Vec::new();
        let mut i: usize = 0;
        while i < n
            invariant
                n == self.intelligent_features@.len(),
                fviews == self.intelligent_features@.map_values(|s: String| s@),
                i <= n,
                kept@.map_values(|s: String| s@) == supported_filter(
                    fviews.subrange(0, i as int),
                ),
            decreases n - i,
        {
            let ghost pre = fviews.subrange(0, i as int);
            let ghost cur = fviews.subrange(0, i + 1 as int);
            proof {
                assert(cur.drop_last() =~= pre);
                assert(cur.last() == fviews[i as int]);
            }
            let f = &self.intelligent_features[i];
            if string_is(f, "small_number_selection") || string_is(f, "auto_skill_timing")
                || string_is(f, "smart_deployment") {
                kept.push(self.intelligent_features[i].clone());
                proof {
                    assert(kept@.map_values(|s: String| s@) =~= supported_filter(cur));
                }
            } else {
                proof {
                    assert(kept@.map_values(|s: String| s@) =~= supported_filter(cur));
                }
            }
            i = i + 1;
        }
        proof {
            assert(fviews.subrange(0, n as int) =~= fviews);
        }
        if kept.len() == 0 {
            kept.push("small_number_selection".to_owned());
            proof {
                assert(kept@.map_values(|s: String| s@) =~= seq!["small_number_selection"@]);
            }
        }
        self.intelligent_features = kept;
        proof {
            lemma_supported_filter_ok(fviews);
            assert forall|j: int| 0 <= j < self.intelligent_features@.len()
                implies supported_feature((#[trigger] self.intelligent_features@[j])@) by {
                assert(self.intelligent_features@.map_values(|s: String| s@)[j]
                    == (self.intelligent_features@[j])@);
            }
        }
        self.overlay_settings.fix_invalid_values();
    }

    /// The intelligent features this build understands.
    pub fn get_supported_intelligent_features() -> (r: Vec<&'static str>)
        ensures
            r@.len() == 3,
            r@[0]@ == "small_number_selection"@,
            r@[1]@ == "auto_skill_timing"@,
            r@[2]@ == "smart_deployment"@,
    {
        let mut v: Vec<&'static str> = Vec::new();
        v.push("small_number_selection");
        v.push("auto_skill_timing");
        v.push("smart_deployment");
        v
    }
}

impl Default for IntelligentModeConfig {
    /// The stock bindings plus the one default intelligent feature.
    fn default() -> (c: Self)
        ensures
            c.is_default(),
            c.wf(),
            c.spec_valid(),
            c.hotkeys.spec_len() == 5,
            c.hotkeys@["deploy_operator"@] == "1"@,
            c.hotkeys@["activate_skill"@] == "2"@,
            c.hotkeys@["retreat_operator"@] == "3"@,
            c.hotkeys@["focus_view"@] == "4"@,
            c.hotkeys@["pause_game"@] == "Space"@,
            c.intelligent_features@.len() == 1,
            (c.intelligent_features@[0])@ == "small_number_selection"@,
            c.overlay_settings == OverlaySettings::default_spec(),
    {
        let mut hotkeys = KeyTable::new();
        hotkeys.insert("deploy_operator".to_owned(), "1".to_owned());
        hotkeys.insert("activate_skill".to_owned(), "2".to_owned());
        hotkeys.insert("retreat_operator".to_owned(), "3".to_owned());
        hotkeys.insert("focus_view".to_owned(), "4".to_owned());
        hotkeys.insert("pause_game".to_owned(), "Space".to_owned());
        let mut features: Vec<String> = Vec::new();
        features.push("small_number_selection".to_owned());
        proof {
            lemma_hotkey_literals();
            assert(hotkeys@ =~= default_hotkeys_map());
            assert(features@.map_values(|s: String| s@) =~= seq!["small_number_selection"@]);
        }
        IntelligentModeConfig {
            hotkeys,
            overlay_settings: OverlaySettings::default(),
            intelligent_features: features,
        }
    }
}

/// Settings shared by both modes.
#[derive(Debug, Clone)]
pub struct GlobalSettings {
    pub game_keys: KeyTable,
    pub auto_start_on_detection: bool,
}

impl GlobalSettings {
    pub open spec fn wf(self) -> bool {
        self.game_keys.wf()
    }

    pub open spec fn spec_valid(self) -> bool {
        game_keys_valid(self.game_keys@)
    }

    /// The settings are exactly the stock ones.
    pub open spec fn is_default(self) -> bool {
        &&& self.wf()
        &&& self.game_keys@ == default_game_keys_map()
        &&& self.game_keys.spec_len() == 4
        &&& self.auto_start_on_detection == false
    }

    /// How repair relates old settings to new ones.
    pub open spec fn spec_fixed(o: GlobalSettings, n: GlobalSettings) -> bool {
        &&& n.wf()
        &&& game_keys_fixed(o.game_keys@, n.game_keys@)
        &&& n.auto_start_on_detection == o.auto_start_on_detection
    }

    /// Accepts exactly the settings with a complete in-game key map.
    pub fn validate(&self) -> (r: Result<(), String>)
        requires
            self.wf(),
        ensures
            r is Ok <==> self.spec_valid(),
    {
        if !key_ok_exec(&self.game_keys, "battle_speed") {
            return Err("missing or blank game key: battle_speed".to_owned());
        }
        if !key_ok_exec(&self.game_keys, "skill_activation") {
            return Err("missing or blank game key: skill_activation".to_owned());
        }
        if !key_ok_exec(&self.game_keys, "retreat_operator") {
            return Err("missing or blank game key: retreat_operator".to_owned());
        }
        if !key_ok_exec(&self.game_keys, "exit_return") {
            return Err("missing or blank game key: exit_return".to_owned());
        }
        Ok(())
    }

    /// Restore every missing or blank in-game key to its stock key,
    /// leaving every other binding as it was; afterwards validation
    /// accepts.
    pub fn fix_invalid_values(&mut self)
        requires
            old(self).wf(),
        ensures
            final(self).wf(),
            final(self).spec_valid(),
            Self::spec_fixed(*old(self), *final(self)),
            old(self).spec_valid() ==> final(self).game_keys@ == old(self).game_keys@,
    {
        proof {
            lemma_game_key_literals();
        }
        let ghost m0 = self.game_keys@;
        fix_key(&mut self.game_keys, "battle_speed", "2");
        fix_key(&mut self.game_keys, "skill_activation", "Space");
        fix_key(&mut self.game_keys, "retreat_operator", "Delete");
        fix_key(&mut self.game_keys, "exit_return", "Escape");
        proof {
            assert(game_keys_fixed(m0, self.game_keys@));
        }
    }
}

impl Default for GlobalSettings {
    fn default() -> (c: Self)
        ensures
            c.is_default(),
            c.wf(),
            c.spec_valid(),
            c.game_keys.spec_len() == 4,
            c.game_keys@["battle_speed"@] == "2"@,
            c.game_keys@["skill_activation"@] == "Space"@,
            c.game_keys@["retreat_operator"@] == "Delete"@,
            c.game_keys@["exit_return"@] == "Escape"@,
            c.auto_start_on_detection == false,
    {
        let mut game_keys = KeyTable::new();
        game_keys.insert("battle_speed".to_owned(), "2".to_owned());
        game_keys.insert("skill_activation".to_owned(), "Space".to_owned());
        game_keys.insert("retreat_operator".to_owned(), "Delete".to_owned());
        game_keys.insert("exit_return".to_owned(), "Escape".to_owned());
        proof {
            lemma_game_key_literals();
            assert(game_keys@ =~= default_game_keys_map());
        }
        GlobalSettings { game_keys, auto_start_on_detection: false }
    }
}

/// Settings of the main window and application shell.
#[derive(Debug)]
pub struct UISettings {
    pub theme: Theme,
    pub language: String,
    pub window_size: (u32, u32),
    pub minimize_to_tray: bool,
    pub start_with_windows: bool,
    pub auto_check_updates: bool,
}

impl UISettings {
    pub open spec fn spec_valid(self) -> bool {
        &&& 400 <= self.window_size.0 <= 3840
        &&& 300 <= self.window_size.1 <= 2160
        &&& supported_language(self.language@)
    }

    /// How repair relates old settings to new ones: the window size is
    /// clamped into range, an unsupported language falls back to the
    /// default, and everything else is untouched.
    pub open spec fn spec_fixed(o: UISettings, n: UISettings) -> bool {
        &&& n.theme == o.theme
        &&& n.minimize_to_tray == o.minimize_to_tray
        &&& n.start_with_windows == o.start_with_windows
        &&& n.auto_check_updates == o.auto_check_updates
        &&& n.window_size.0 == (if o.window_size.0 < 400 {
            400
        } else if o.window_size.0 > 3840 {
            3840
        } else {
            o.window_size.0
        })
        &&& n.window_size.1 == (if o.window_size.1 < 300 {
            300
        } else if o.window_size.1 > 2160 {
            2160
        } else {
            o.window_size.1
        })
        &&& (supported_language(o.language@) ==> n.language == o.language)
        &&& (!supported_language(o.language@) ==> n.language@ == "zh-CN"@)
    }

    /// Accepts exactly the settings with an in-range window size and a
    /// supported language.
    pub fn validate(&self) -> (r: Result<(), String>)
        ensures
            r is Ok <==> self.spec_valid(),
    {
        if self.window_size.0 < 400 || self.window_size.0 > 3840 {
            return Err("window width out of range".to_owned());
        }
        if self.window_size.1 < 300 || self.window_size.1 > 2160 {
            return Err("window height out of range".to_owned());
        }
        if !(string_is(&self.language, "zh-CN") || string_is(&self.language, "zh-TW") || string_is(
            &self.language,
            "en-US",
        ) || string_is(&self.language, "ja-JP") || string_is(&self.language, "ko-KR")) {
            return Err("unsupported language".to_owned());
        }
        Ok(())
    }

    /// Clamp the window size into range and fall back to the default
    /// language when the configured one is unsupported; afterwards
    /// validation accepts.
    pub fn fix_invalid_values(&mut self)
        ensures
            final(self).spec_valid(),
            UISettings::spec_fixed(*old(self), *final(self)),
    {
        if self.window_size.0 < 400 {
            self.window_size.0 = 400;
        } else if self.window_size.0 > 3840 {
            self.window_size.0 = 3840;
        }
        if self.window_size.1 < 300 {
            self.window_size.1 = 300;
        } else if self.window_size.1 > 2160 {
            self.window_size.1 = 2160;
        }
        if !(string_is(&self.language, "zh-CN") || string_is(&self.language, "zh-TW") || string_is(
            &self.language,
            "en-US",
        ) || string_is(&self.language, "ja-JP") || string_is(&self.language, "ko-KR")) {
            self.language = "zh-CN".to_owned();
        }
    }

    /// The languages the UI can display.
    pub fn get_supported_languages() -> (r: Vec<&'static str>)
        ensures
            r@.len() == 5,
            r@[0]@ == "zh-CN"@,
            r@[1]@ == "zh-TW"@,
            r@[2]@ == "en-US"@,
            r@[3]@ == "ja-JP"@,
            r@[4]@ == "ko-KR"@,
    {
        let mut v: Vec<&'static str> = Vec::new();
        v.push("zh-CN");
        v.push("zh-TW");
        v.push("en-US");
        v.push("ja-JP");
        v.push("ko-KR");
        v
    }
}

impl Clone for UISettings {
    fn clone(&self) -> (r: Self)
        ensures
            r == *self,
    {
        UISettings {
            theme: self.theme,
            language: self.language.clone(),
            window_size: (self.window_size.0, self.window_size.1),
            minimize_to_tray: self.minimize_to_tray,
            start_with_windows: self.start_with_windows,
            auto_check_updates: self.auto_check_updates,
        }
    }
}

impl Default for UISettings {
    fn default() -> (c: Self)
        ensures
            c.spec_valid(),
            c.theme == Theme::Light,
            c.language@ == "zh-CN"@,
            c.window_size == (800u32, 600u32),
            c.minimize_to_tray == true,
            c.start_with_windows == false,
            c.auto_check_updates == true,
    {
        UISettings {
            theme: Theme::Light,
            language: "zh-CN".to_owned(),
            window_size: (800, 600),
            minimize_to_tray: true,
            start_with_windows: false,
            auto_check_updates: true,
        }
    }
}

/// The whole application configuration.
#[derive(Debug, Clone)]
pub struct AppConfig {
    pub mode: OperationMode,
    pub macro_config: MacroModeConfig,
    pub intelligent_config: IntelligentModeConfig,
    pub global_settings: GlobalSettings,
    pub ui_settings: UISettings,
}

impl AppConfig {
    pub open spec fn wf(self) -> bool {
        &&& self.macro_config.wf()
        &&& self.intelligent_config.wf()
        &&& self.global_settings.wf()
    }

    pub open spec fn spec_valid(self) -> bool {
        &&& self.macro_config.spec_valid()
        &&& self.intelligent_config.spec_valid()
        &&& self.global_settings.spec_valid()
        &&& self.ui_settings.spec_valid()
    }

    /// Accepts exactly the configurations all of whose parts validate;
    /// the first failing part's message is reported as a validation
    /// error.
    pub fn validate(&self) -> (r: Result<(), crate::errors::ConfigError>)
        requires
            self.wf(),
        ensures
            r is Ok <==> self.spec_valid(),
            r matches Err(e) ==> e is ValidationError,
    {
        if let Err(e) = self.macro_config.validate() {
            return Err(crate::errors::ConfigError::ValidationError(e));
        }
        if let Err(e) = self.intelligent_config.validate() {
            return Err(crate::errors::ConfigError::ValidationError(e));
        }
        if let Err(e) = self.global_settings.validate() {
            return Err(crate::errors::ConfigError::ValidationError(e));
        }
        if let Err(e) = self.ui_settings.validate() {
            return Err(crate::errors::ConfigError::ValidationError(e));
        }
        Ok(())
    }

    /// Repair every part, each exactly as its own repair specifies;
    /// afterwards validation accepts.
    pub fn fix_invalid_values(&mut self)
        requires
            old(self).wf(),
        ensures
            final(self).wf(),
            final(self).spec_valid(),
            final(self).mode == old(self).mode,
            MacroModeConfig::spec_fixed(old(self).macro_config, final(self).macro_config),
            IntelligentModeConfig::spec_fixed(
                old(self).intelligent_config,
                final(self).intelligent_config,
            ),
            GlobalSettings::spec_fixed(old(self).global_settings, final(self).global_settings),
            UISettings::spec_fixed(old(self).ui_settings, final(self).ui_settings),
    {
        self.macro_config.fix_invalid_values();
        self.intelligent_config.fix_invalid_values();
        self.global_settings.fix_invalid_values();
        self.ui_settings.fix_invalid_values();
    }

    /// The operations a hotkey can be bound to.
    pub fn get_supported_operations() -> (r: Vec<&'static str>)
        ensures
            r@.len() == 5,
            r@.map_values(|s: &'static str| s@) == required_ops(),
    {
        let mut v: Vec<&'static str> = Vec::new();
        v.push("deploy_operator");
        v.push("activate_skill");
        v.push("retreat_operator");
        v.push("focus_view");
        v.push("pause_game");
        proof {
            assert(v@.map_values(|s: &'static str| s@) =~= required_ops());
        }
        v
    }

    /// The in-game functions the global key map drives.
    pub fn get_supported_game_functions() -> (r: Vec<&'static str>)
        ensures
            r@.len() == 4,
            r@.map_values(|s: &'static str| s@) == required_game_functions(),
    {
        let mut v: Vec<&'static str> = Vec::new();
        v.push("battle_speed");
        v.push("skill_activation");
        v.push("retreat_operator");
        v.push("exit_return");
        proof {
            assert(v@.map_values(|s: &'static str| s@) =~= required_game_functions());
        }
        v
    }
}

impl Default for AppConfig {
    fn default() -> (c: Self)
        ensures
            c.wf(),
            c.spec_valid(),
            c.mode == OperationMode::Macro,
            c.macro_config.battle_detection_enabled == true,
            c.macro_config.overlay_settings == OverlaySettings::default_spec(),
            c.ui_settings.theme == Theme::Light,
            c.ui_settings.language@ == "zh-CN"@,
            c.ui_settings.window_size == (800u32, 600u32),
            c.global_settings.auto_start_on_detection == false,
    {
        AppConfig {
            mode: OperationMode::Macro,
            macro_config: MacroModeConfig::default(),
            intelligent_config: IntelligentModeConfig::default(),
            global_settings: GlobalSettings::default(),
            ui_settings: UISettings::default(),
        }
    }
}

/// What the configuration service reports about the configuration file's
/// lifecycle.
#[derive(Debug, PartialEq)]
pub enum ConfigChangeEvent {
    /// The configuration was (re)loaded from disk.
    Loaded,
    /// The configuration was written to disk.
    Saved,
    /// The in-memory configuration changed.
    Updated,
    /// A save attempt failed, with the reported reason.
    SaveFailed(String),
}

/// Application shell preferences kept in the user's configuration
/// directory.
#[derive(Debug, Clone)]
pub struct Config {
    pub window_width: u32,
    pub window_height: u32,
    pub theme: String,
    pub language: String,
    pub auto_save: bool,
    pub last_opened_directory: Option<String>,
}

impl Default for Config {
    fn default() -> (c: Self)
        ensures
            c.window_width == 800,
            c.window_height == 600,
            c.theme@ == "light"@,
            c.language@ == "zh-CN"@,
            c.auto_save == true,
            c.last_opened_directory is None,
    {
        Config {
            window_width: 800,
            window_height: 600,
            theme: "light".to_owned(),
            language: "zh-CN".to_owned(),
            auto_save: true,
            last_opened_directory: None,
        }
    }
}

} // verus!
