use purger::i18n;
use purger::simple_i18n;
use purger::simple_i18n::{language_for_locale, translate_in, Language};

#[test]
fn i18n_test_language_code() {
    assert_eq!(i18n::Language::Chinese.code(), "zh-CN");
    assert_eq!(i18n::Language::English.code(), "en");
}

#[test]
fn i18n_test_language_from_code() {
    assert_eq!(i18n::Language::from_code("zh-CN"), Some(i18n::Language::Chinese));
    assert_eq!(i18n::Language::from_code("en"), Some(i18n::Language::English));
    assert_eq!(i18n::Language::from_code("invalid"), None);
}

#[test]
fn i18n_translation_tables() {
    assert_eq!(i18n::get_translation("menu.file", i18n::Language::English), "File");
    assert_eq!(i18n::get_translation("menu.file", i18n::Language::Chinese), "文件");
    assert_eq!(
        i18n::get_translation("unknown.key", i18n::Language::English),
        "unknown.key"
    );
    assert_eq!(i18n::get_chinese_translation("dialog.ok"), Some("确定".to_string()));
    assert_eq!(i18n::get_english_translation("dialog.ok"), Some("OK".to_string()));
    assert_eq!(i18n::get_english_translation("nothing.here"), None);
}

#[test]
fn i18n_language_display_name() {
    assert_eq!(i18n::Language::Chinese.display_name(), "中文");
    assert_eq!(i18n::Language::English.display_name(), "English");
}

#[test]
fn test_language_display_name() {
    assert_eq!(Language::Chinese.display_name(), "中文");
    assert_eq!(Language::English.display_name(), "English");
}

#[test]
fn translate_in_both_languages() {
    assert_eq!(translate_in("menu.file", Language::English), "File");
    assert_eq!(translate_in("menu.file", Language::Chinese), "文件");
}

#[test]
fn translate_in_with_params() {
    let result = translate_in("projects.found_message", Language::English).replace("%{count}", "5");
    assert_eq!(result, "Found 5 Rust projects");

    let result = translate_in("projects.found_message", Language::Chinese).replace("%{count}", "5");
    assert_eq!(result, "找到 5 个Rust项目");
}

#[test]
fn translate_in_unknown_key() {
    assert_eq!(translate_in("unknown.key", Language::English), "unknown.key");
    assert_eq!(translate_in("unknown.key", Language::Chinese), "unknown.key");
}

#[test]
fn test_language_all() {
    let languages = Language::all();
    assert_eq!(languages.len(), 2);
    assert!(languages.contains(&Language::Chinese));
    assert!(languages.contains(&Language::English));
}

#[test]
fn simple_i18n_test_language_code() {
    assert_eq!(Language::Chinese.code(), "zh-CN");
    assert_eq!(Language::English.code(), "en");
}

#[test]
fn simple_i18n_test_language_from_code() {
    assert_eq!(Language::from_code("zh-CN"), Some(Language::Chinese));
    assert_eq!(Language::from_code("en"), Some(Language::English));
    assert_eq!(Language::from_code("fr"), None);
    assert_eq!(Language::from_code(""), None);
    assert_eq!(Language::from_code("invalid"), None);
}

#[test]
fn test_language_equality() {
    assert_eq!(Language::Chinese, Language::Chinese);
    assert_eq!(Language::English, Language::English);
    assert_ne!(Language::Chinese, Language::English);
}

#[test]
fn test_language_clone() {
    let lang = Language::Chinese;
    let cloned = lang;
    assert_eq!(lang, cloned);
}

#[test]
fn test_language_debug() {
    let debug_str = format!("{:?}", Language::Chinese);
    assert!(debug_str.contains("Chinese"));
}

#[test]
fn locale_selects_language() {
    assert_eq!(language_for_locale("zh-CN"), Language::Chinese);
    assert_eq!(language_for_locale("zh"), Language::Chinese);
    assert_eq!(language_for_locale("en-US"), Language::English);
    assert_eq!(language_for_locale("fr-FR"), Language::English);
    assert_eq!(language_for_locale(""), Language::English);
}

#[test]
fn translation_tables_cover_the_menu() {
    assert_eq!(
        simple_i18n::translate_chinese("menu.settings"),
        Some("设置".to_string())
    );
    assert_eq!(
        simple_i18n::translate_english("menu.settings"),
        Some("Settings".to_string())
    );
    assert_eq!(simple_i18n::translate_chinese("no.such.key"), None);
    assert_eq!(simple_i18n::translate_english("no.such.key"), None);
}
