use winpaste::settings::{AppSettings, SettingsManager, SettingsPatch};

fn base_settings() -> AppSettings {
    AppSettings {
        max_items: 500,
        auto_delete_days: 30,
        theme: String::from("system"),
        mica_effect: String::from("mica"),
        language: String::from("en"),
        hotkey: String::from("Ctrl+Shift+V"),
        auto_paste: true,
        ignore_ghost_clips: false,
        startup_with_windows: false,
        ai_provider: String::from("openai"),
        ai_api_key: String::new(),
        ai_model: String::from("gpt-4o-mini"),
        ai_base_url: String::new(),
        ai_prompt_summarize: String::from("Summarize: {{content}}"),
        ai_prompt_translate: String::from("Translate: {{content}}"),
        ai_prompt_explain_code: String::from("Explain: {{content}}"),
        ai_prompt_fix_grammar: String::from("Fix: {{content}}"),
        ai_title_summarize: String::from("Summary"),
        ai_title_translate: String::from("Translation"),
        ai_title_explain_code: String::from("Explanation"),
        ai_title_fix_grammar: String::from("Corrected"),
        ignored_apps: vec![String::from("keepass.exe")],
    }
}

fn empty_patch() -> SettingsPatch {
    SettingsPatch {
        max_items: None,
        auto_delete_days: None,
        theme: None,
        mica_effect: None,
        language: None,
        hotkey: None,
        auto_paste: None,
        ignore_ghost_clips: None,
        startup_with_windows: None,
        ai_provider: None,
        ai_api_key: None,
        ai_model: None,
        ai_base_url: None,
        ai_prompt_summarize: None,
        ai_prompt_translate: None,
        ai_prompt_explain_code: None,
        ai_prompt_fix_grammar: None,
        ai_title_summarize: None,
        ai_title_translate: None,
        ai_title_explain_code: None,
        ai_title_fix_grammar: None,
    }
}

#[test]
fn empty_patch_changes_nothing() {
    let s = base_settings().apply_patch(empty_patch());
    assert_eq!(s.max_items, 500);
    assert_eq!(s.theme, "system");
    assert_eq!(s.hotkey, "Ctrl+Shift+V");
    assert!(s.auto_paste);
    assert_eq!(s.ignored_apps, vec![String::from("keepass.exe")]);
}

#[test]
fn present_fields_replace_absent_fields_stay() {
    let mut p = empty_patch();
    p.theme = Some(String::from("dark"));
    p.max_items = Some(100);
    p.auto_paste = Some(false);
    let s = base_settings().apply_patch(p);
    assert_eq!(s.theme, "dark");
    assert_eq!(s.max_items, 100);
    assert!(!s.auto_paste);
    // Untouched fields keep their values.
    assert_eq!(s.language, "en");
    assert_eq!(s.auto_delete_days, 30);
    assert_eq!(s.ai_model, "gpt-4o-mini");
    assert_eq!(s.ignored_apps, vec![String::from("keepass.exe")]);
}

#[test]
fn manager_get_returns_what_was_saved() {
    let mut m = SettingsManager::new(base_settings());
    assert_eq!(m.get().theme, "system");
    let mut changed = base_settings();
    changed.theme = String::from("light");
    m.save(changed);
    assert_eq!(m.get().theme, "light");
    assert_eq!(m.get().max_items, 500);
}

#[test]
fn duplicate_is_an_exact_copy() {
    let s = base_settings();
    let d = s.duplicate();
    assert_eq!(d.theme, s.theme);
    assert_eq!(d.ignored_apps, s.ignored_apps);
    assert_eq!(d.ai_prompt_summarize, s.ai_prompt_summarize);
}

#[test]
fn add_ignored_app_is_set_like() {
    let mut s = base_settings();
    assert!(s.add_ignored_app(String::from("vault.exe")));
    assert!(!s.add_ignored_app(String::from("vault.exe")));
    assert_eq!(s.ignored_apps.len(), 2);
}

#[test]
fn remove_ignored_app_drops_the_name() {
    let mut s = base_settings();
    assert!(s.remove_ignored_app(&String::from("keepass.exe")));
    assert!(s.ignored_apps.is_empty());
    assert!(!s.remove_ignored_app(&String::from("keepass.exe")));
}
