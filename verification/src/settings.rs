//! Typed application settings with explicit optional-field patch semantics,
//! and the manager that holds the authoritative copy in memory.
//!
//! A patch carries one optional slot per setting; applying it overwrites
//! exactly the fields that are present and keeps every other field as it
//! was. Loading and writing the settings file is the caller's business.

use vstd::prelude::*;

verus! {

/// Mathematical model of the settings.
#[verifier::ext_equal]
pub ghost struct SpecSettings {
    pub max_items: i64,
    pub auto_delete_days: i64,
    pub theme: Seq<char>,
    pub mica_effect: Seq<char>,
    pub language: Seq<char>,
    pub hotkey: Seq<char>,
    pub auto_paste: bool,
    pub ignore_ghost_clips: bool,
    pub startup_with_windows: bool,
    pub ai_provider: Seq<char>,
    pub ai_api_key: Seq<char>,
    pub ai_model: Seq<char>,
    pub ai_base_url: Seq<char>,
    pub ai_prompt_summarize: Seq<char>,
    pub ai_prompt_translate: Seq<char>,
    pub ai_prompt_explain_code: Seq<char>,
    pub ai_prompt_fix_grammar: Seq<char>,
    pub ai_title_summarize: Seq<char>,
    pub ai_title_translate: Seq<char>,
    pub ai_title_explain_code: Seq<char>,
    pub ai_title_fix_grammar: Seq<char>,
    pub ignored_apps: Seq<Seq<char>>,
}

/// The application settings.
pub struct AppSettings {
    pub max_items: i64,
    pub auto_delete_days: i64,
    pub theme: String,
    pub mica_effect: String,
    pub language: String,
    pub hotkey: String,
    pub auto_paste: bool,
    pub ignore_ghost_clips: bool,
    pub startup_with_windows: bool,
    pub ai_provider: String,
    pub ai_api_key: String,
    pub ai_model: String,
    pub ai_base_url: String,
    pub ai_prompt_summarize: String,
    pub ai_prompt_translate: String,
    pub ai_prompt_explain_code: String,
    pub ai_prompt_fix_grammar: String,
    pub ai_title_summarize: String,
    pub ai_title_translate: String,
    pub ai_title_explain_code: String,
    pub ai_title_fix_grammar: String,
    pub ignored_apps: Vec<String>,
}

impl View for AppSettings {
    type V = SpecSettings;

    open spec fn view(&self) -> SpecSettings {
        SpecSettings {
            max_items: self.max_items,
            auto_delete_days: self.auto_delete_days,
            theme: self.theme@,
            mica_effect: self.mica_effect@,
            language: self.language@,
            hotkey: self.hotkey@,
            auto_paste: self.auto_paste,
            ignore_ghost_clips: self.ignore_ghost_clips,
            startup_with_windows: self.startup_with_windows,
            ai_provider: self.ai_provider@,
            ai_api_key: self.ai_api_key@,
            ai_model: self.ai_model@,
            ai_base_url: self.ai_base_url@,
            ai_prompt_summarize: self.ai_prompt_summarize@,
            ai_prompt_translate: self.ai_prompt_translate@,
            ai_prompt_explain_code: self.ai_prompt_explain_code@,
            ai_prompt_fix_grammar: self.ai_prompt_fix_grammar@,
            ai_title_summarize: self.ai_title_summarize@,
            ai_title_translate: self.ai_title_translate@,
            ai_title_explain_code: self.ai_title_explain_code@,
            ai_title_fix_grammar: self.ai_title_fix_grammar@,
            ignored_apps: self.ignored_apps@.map_values(|s: String| s@),
        }
    }
}

/// Mathematical model of a settings patch.
#[verifier::ext_equal]
pub ghost struct SpecPatch {
    pub max_items: Option<i64>,
    pub auto_delete_days: Option<i64>,
    pub theme: Option<Seq<char>>,
    pub mica_effect: Option<Seq<char>>,
    pub language: Option<Seq<char>>,
    pub hotkey: Option<Seq<char>>,
    pub auto_paste: Option<bool>,
    pub ignore_ghost_clips: Option<bool>,
    pub startup_with_windows: Option<bool>,
    pub ai_provider: Option<Seq<char>>,
    pub ai_api_key: Option<Seq<char>>,
    pub ai_model: Option<Seq<char>>,
    pub ai_base_url: Option<Seq<char>>,
    pub ai_prompt_summarize: Option<Seq<char>>,
    pub ai_prompt_translate: Option<Seq<char>>,
    pub ai_prompt_explain_code: Option<Seq<char>>,
    pub ai_prompt_fix_grammar: Option<Seq<char>>,
    pub ai_title_summarize: Option<Seq<char>>,
    pub ai_title_translate: Option<Seq<char>>,
    pub ai_title_explain_code: Option<Seq<char>>,
    pub ai_title_fix_grammar: Option<Seq<char>>,
}

/// A partial update of the settings: each field present in the patch
/// replaces the current value; each absent field leaves it untouched.
/// The ignored-application list is edited through its own operations, never
/// patched wholesale.
pub struct SettingsPatch {
    pub max_items: Option<i64>,
    pub auto_delete_days: Option<i64>,
    pub theme: Option<String>,
    pub mica_effect: Option<String>,
    pub language: Option<String>,
    pub hotkey: Option<String>,
    pub auto_paste: Option<bool>,
    pub ignore_ghost_clips: Option<bool>,
    pub startup_with_windows: Option<bool>,
    pub ai_provider: Option<String>,
    pub ai_api_key: Option<String>,
    pub ai_model: Option<String>,
    pub ai_base_url: Option<String>,
    pub ai_prompt_summarize: Option<String>,
    pub ai_prompt_translate: Option<String>,
    pub ai_prompt_explain_code: Option<String>,
    pub ai_prompt_fix_grammar: Option<String>,
    pub ai_title_summarize: Option<String>,
    pub ai_title_translate: Option<String>,
    pub ai_title_explain_code: Option<String>,
    pub ai_title_fix_grammar: Option<String>,
}

impl View for SettingsPatch {
    type V = SpecPatch;

    open spec fn view(&self) -> SpecPatch {
        SpecPatch {
            max_items: self.max_items,
            auto_delete_days: self.auto_delete_days,
            theme: view_opt_string(self.theme),
            mica_effect: view_opt_string(self.mica_effect),
            language: view_opt_string(self.language),
            hotkey: view_opt_string(self.hotkey),
            auto_paste: self.auto_paste,
            ignore_ghost_clips: self.ignore_ghost_clips,
            startup_with_windows: self.startup_with_windows,
            ai_provider: view_opt_string(self.ai_provider),
            ai_api_key: view_opt_string(self.ai_api_key),
            ai_model: view_opt_string(self.ai_model),
            ai_base_url: view_opt_string(self.ai_base_url),
            ai_prompt_summarize: view_opt_string(self.ai_prompt_summarize),
            ai_prompt_translate: view_opt_string(self.ai_prompt_translate),
            ai_prompt_explain_code: view_opt_string(self.ai_prompt_explain_code),
            ai_prompt_fix_grammar: view_opt_string(self.ai_prompt_fix_grammar),
            ai_title_summarize: view_opt_string(self.ai_title_summarize),
            ai_title_translate: view_opt_string(self.ai_title_translate),
            ai_title_explain_code: view_opt_string(self.ai_title_explain_code),
            ai_title_fix_grammar: view_opt_string(self.ai_title_fix_grammar),
        }
    }
}

/// The view of an optional string.
pub open spec fn view_opt_string(s: Option<String>) -> Option<Seq<char>> {
    match s {
        Some(v) => Some(v@),
        None => None,
    }
}

/// A present patch field, or the current value.
pub open spec fn patched<T>(current: T, slot: Option<T>) -> T {
    match slot {
        Some(v) => v,
        None => current,
    }
}

/// The settings a patch turns the current ones into: present fields
/// replaced, absent fields and the ignored-application list kept.
pub open spec fn spec_apply_patch(s: SpecSettings, p: SpecPatch) -> SpecSettings {
    SpecSettings {
        max_items: patched(s.max_items, p.max_items),
        auto_delete_days: patched(s.auto_delete_days, p.auto_delete_days),
        theme: patched(s.theme, p.theme),
        mica_effect: patched(s.mica_effect, p.mica_effect),
        language: patched(s.language, p.language),
        hotkey: patched(s.hotkey, p.hotkey),
        auto_paste: patched(s.auto_paste, p.auto_paste),
        ignore_ghost_clips: patched(s.ignore_ghost_clips, p.ignore_ghost_clips),
        startup_with_windows: patched(s.startup_with_windows, p.startup_with_windows),
        ai_provider: patched(s.ai_provider, p.ai_provider),
        ai_api_key: patched(s.ai_api_key, p.ai_api_key),
        ai_model: patched(s.ai_model, p.ai_model),
        ai_base_url: patched(s.ai_base_url, p.ai_base_url),
        ai_prompt_summarize: patched(s.ai_prompt_summarize, p.ai_prompt_summarize),
        ai_prompt_translate: patched(s.ai_prompt_translate, p.ai_prompt_translate),
        ai_prompt_explain_code: patched(s.ai_prompt_explain_code, p.ai_prompt_explain_code),
        ai_prompt_fix_grammar: patched(s.ai_prompt_fix_grammar, p.ai_prompt_fix_grammar),
        ai_title_summarize: patched(s.ai_title_summarize, p.ai_title_summarize),
        ai_title_translate: patched(s.ai_title_translate, p.ai_title_translate),
        ai_title_explain_code: patched(s.ai_title_explain_code, p.ai_title_explain_code),
        ai_title_fix_grammar: patched(s.ai_title_fix_grammar, p.ai_title_fix_grammar),
        ignored_apps: s.ignored_apps,
    }
}

fn pick_i64(current: i64, slot: Option<i64>) -> (r: i64)
    ensures
        r == patched(current, slot),
{
    match slot {
        Some(v) => v,
        None => current,
    }
}

fn pick_bool(current: bool, slot: Option<bool>) -> (r: bool)
    ensures
        r == patched(current, slot),
{
    match slot {
        Some(v) => v,
        None => current,
    }
}

fn pick_string(current: String, slot: Option<String>) -> (r: String)
    ensures
        r@ == patched(current@, view_opt_string(slot)),
{
    match slot {
        Some(v) => v,
        None => current,
    }
}

/// An exact copy of a vector of strings.
fn clone_string_vec(v: &Vec<String>) -> (r: Vec<String>)
    ensures
        r@ == v@,
{
    let mut r: Vec<String> = Vec::new();
    let n = v.len();
    let mut i: usize = 0;
    while i < n
        invariant
            n == v@.len(),
            i <= n,
            r@ =~= v@.take(i as int),
        decreases n - i,
    {
        r.push(v[i].clone());
        i = i + 1;
    }
    proof {
        assert(v@.take(n as int) =~= v@);
    }
    r
}

/// Whether a vector of strings holds this exact string.
fn string_vec_contains(v: &Vec<String>, name: &String) -> (r: bool)
    ensures
        r == v@.map_values(|s: String| s@).contains(name@),
{
    let ghost views = v@.map_values(|s: String| s@);
    let n = v.len();
    let mut i: usize = 0;
    while i < n
        invariant
            n == v@.len(),
            i <= n,
            views == v@.map_values(|s: String| s@),
            forall|k: int| 0 <= k < i ==> #[trigger] views[k] != name@,
        decreases n - i,
    {
        if v[i] == *name {
            proof {
                assert(views[i as int] == name@);
            }
            return true;
        }
        i = i + 1;
    }
    proof {
        if views.contains(name@) {
            let k = choose|k: int| 0 <= k < views.len() && views[k] == name@;
            assert(views[k] != name@);
        }
    }
    false
}

impl AppSettings {
    /// Replaces exactly the fields the patch carries and keeps all others,
    /// the ignored-application list included.
    pub fn apply_patch(self, patch: SettingsPatch) -> (r: AppSettings)
        ensures
            r@ == spec_apply_patch(self@, patch@),
    {
        let r = AppSettings {
            max_items: pick_i64(self.max_items, patch.max_items),
            auto_delete_days: pick_i64(self.auto_delete_days, patch.auto_delete_days),
            theme: pick_string(self.theme, patch.theme),
            mica_effect: pick_string(self.mica_effect, patch.mica_effect),
            language: pick_string(self.language, patch.language),
            hotkey: pick_string(self.hotkey, patch.hotkey),
            auto_paste: pick_bool(self.auto_paste, patch.auto_paste),
            ignore_ghost_clips: pick_bool(self.ignore_ghost_clips, patch.ignore_ghost_clips),
            startup_with_windows: pick_bool(
                self.startup_with_windows,
                patch.startup_with_windows,
            ),
            ai_provider: pick_string(self.ai_provider, patch.ai_provider),
            ai_api_key: pick_string(self.ai_api_key, patch.ai_api_key),
            ai_model: pick_string(self.ai_model, patch.ai_model),
            ai_base_url: pick_string(self.ai_base_url, patch.ai_base_url),
            ai_prompt_summarize: pick_string(
                self.ai_prompt_summarize,
                patch.ai_prompt_summarize,
            ),
            ai_prompt_translate: pick_string(
                self.ai_prompt_translate,
                patch.ai_prompt_translate,
            ),
            ai_prompt_explain_code: pick_string(
                self.ai_prompt_explain_code,
                patch.ai_prompt_explain_code,
            ),
            ai_prompt_fix_grammar: pick_string(
                self.ai_prompt_fix_grammar,
                patch.ai_prompt_fix_grammar,
            ),
            ai_title_summarize: pick_string(self.ai_title_summarize, patch.ai_title_summarize),
            ai_title_translate: pick_string(self.ai_title_translate, patch.ai_title_translate),
            ai_title_explain_code: pick_string(
                self.ai_title_explain_code,
                patch.ai_title_explain_code,
            ),
            ai_title_fix_grammar: pick_string(
                self.ai_title_fix_grammar,
                patch.ai_title_fix_grammar,
            ),
            ignored_apps: self.ignored_apps,
        };
        proof {
            assert(r@ =~= spec_apply_patch(self@, patch@));
        }
        r
    }

    /// An exact copy of the settings.
    pub fn duplicate(&self) -> (r: AppSettings)
        ensures
            r@ == self@,
    {
        let r = AppSettings {
            max_items: self.max_items,
            auto_delete_days: self.auto_delete_days,
            theme: self.theme.clone(),
            mica_effect: self.mica_effect.clone(),
            language: self.language.clone(),
            hotkey: self.hotkey.clone(),
            auto_paste: self.auto_paste,
            ignore_ghost_clips: self.ignore_ghost_clips,
            startup_with_windows: self.startup_with_windows,
            ai_provider: self.ai_provider.clone(),
            ai_api_key: self.ai_api_key.clone(),
            ai_model: self.ai_model.clone(),
            ai_base_url: self.ai_base_url.clone(),
            ai_prompt_summarize: self.ai_prompt_summarize.clone(),
            ai_prompt_translate: self.ai_prompt_translate.clone(),
            ai_prompt_explain_code: self.ai_prompt_explain_code.clone(),
            ai_prompt_fix_grammar: self.ai_prompt_fix_grammar.clone(),
            ai_title_summarize: self.ai_title_summarize.clone(),
            ai_title_translate: self.ai_title_translate.clone(),
            ai_title_explain_code: self.ai_title_explain_code.clone(),
            ai_title_fix_grammar: self.ai_title_fix_grammar.clone(),
            ignored_apps: clone_string_vec(&self.ignored_apps),
        };
        proof {
            assert(r@ =~= self@);
        }
        r
    }

    /// Adds an application name to the ignore list if it is not yet there;
    /// reports whether anything changed.
    pub fn add_ignored_app(&mut self, app_name: String) -> (added: bool)
        ensures
            added == !old(self)@.ignored_apps.contains(app_name@),
            added ==> final(self)@ == (SpecSettings {
                ignored_apps: old(self)@.ignored_apps.push(app_name@),
                ..old(self)@
            }),
            !added ==> final(self)@ == old(self)@,
    {
        if string_vec_contains(&self.ignored_apps, &app_name) {
            false
        } else {
            self.ignored_apps.push(app_name);
            proof {
                assert(self@ =~= SpecSettings {
                    ignored_apps: old(self)@.ignored_apps.push(app_name@),
                    ..old(self)@
                });
            }
            true
        }
    }

    /// Drops every occurrence of an application name from the ignore list;
    /// reports whether anything changed.
    pub fn remove_ignored_app(&mut self, app_name: &String) -> (removed: bool)
        ensures
            removed == old(self)@.ignored_apps.contains(app_name@),
            final(self)@ == (SpecSettings {
                ignored_apps: old(self)@.ignored_apps.filter(|s: Seq<char>| s != app_name@),
                ..old(self)@
            }),
    {
        let ghost before = self@.ignored_apps;
        let mut kept: Vec<String> = Vec::new();
        let mut found = false;
        let n = self.ignored_apps.len();
        let mut i: usize = 0;
        while i < n
            invariant
                n == self.ignored_apps@.len(),
                i <= n,
                before == self@.ignored_apps,
                kept@.map_values(|s: String| s@) =~= before.take(i as int).filter(
                    |s: Seq<char>| s != app_name@,
                ),
                found == before.take(i as int).contains(app_name@),
            decreases n - i,
        {
            proof {
                reveal(Seq::filter);
                assert(before.take(i + 1).drop_last() =~= before.take(i as int));
                assert(before.take(i + 1).last() == before[i as int]);
            }
            if self.ignored_apps[i] == *app_name {
                found = true;
                proof {
                    assert(before.take(i + 1)[i as int] == app_name@);
                    assert(before.take(i + 1).contains(app_name@));
                }
            } else {
                kept.push(self.ignored_apps[i].clone());
                proof {
                    if before.take(i + 1).contains(app_name@) {
                        let k = choose|k: int|
                            0 <= k < i + 1 && #[trigger] before.take(i + 1)[k] == app_name@;
                        assert(k < i);
                        assert(before.take(i as int)[k] == app_name@);
                        assert(before.take(i as int).contains(app_name@));
                    }
                    if before.take(i as int).contains(app_name@) {
                        let k = choose|k: int|
                            0 <= k < i && #[trigger] before.take(i as int)[k] == app_name@;
                        assert(before.take(i + 1)[k] == app_name@);
                        assert(before.take(i + 1).contains(app_name@));
                    }
                }
            }
            i = i + 1;
        }
        proof {
            assert(before.take(n as int) =~= before);
        }
        self.ignored_apps = kept;
        proof {
            assert(self@ =~= SpecSettings {
                ignored_apps: before.filter(|s: Seq<char>| s != app_name@),
                ..old(self)@
            });
        }
        found
    }
}

/// Holds the authoritative in-memory copy of the settings; persisting them
/// is the caller's business.
pub struct SettingsManager {
    settings: AppSettings,
}

impl View for SettingsManager {
    type V = SpecSettings;

    closed spec fn view(&self) -> SpecSettings {
        self.settings@
    }
}

impl SettingsManager {
    /// A manager holding the given settings.
    pub fn new(initial: AppSettings) -> (m: SettingsManager)
        ensures
            m@ == initial@,
    {
        SettingsManager { settings: initial }
    }

    /// An exact copy of the current settings.
    pub fn get(&self) -> (r: AppSettings)
        ensures
            r@ == self@,
    {
        self.settings.duplicate()
    }

    /// Replaces the current settings wholesale.
    pub fn save(&mut self, new_settings: AppSettings)
        ensures
            final(self)@ == new_settings@,
    {
        self.settings = new_settings;
    }
}

} // verus!
