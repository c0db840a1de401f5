//! The translation tables of the graphical front end, keyed by message
//! identifiers, with the key itself as the fallback text.

use vstd::prelude::*;

use crate::text::str_eq;

verus! {

/// A language the interface can speak.
#[derive(Debug, Clone, Copy, PartialEq, Eq, Structural)]
pub enum Language {
    Chinese,
    English,
}

impl Language {
    /// Every supported language, the default's candidates first.
    pub fn all() -> (r: Vec<Language>)
        ensures
            r@.len() == 2,
            r@[0] == Language::Chinese,
            r@[1] == Language::English,
    {
        let mut v: Vec<Language> = Vec::new();
        v.push(Language::Chinese);
        v.push(Language::English);
        v
    }

    /// The IETF-style code the language is stored under.
    pub fn code(&self) -> (r: &'static str)
        ensures
            r@ == self.spec_code(),
    {
        match self {
            Language::Chinese => "zh-CN",
            Language::English => "en",
        }
    }

    pub open spec fn spec_code(self) -> Seq<char> {
        match self {
            Language::Chinese => "zh-CN"@,
            Language::English => "en"@,
        }
    }

    /// The language a stored code denotes, if any.
    pub fn from_code(code: &str) -> (r: Option<Language>)
        ensures
            code@ == "zh-CN"@ ==> r == Some(Language::Chinese),
            code@ != "zh-CN"@ && code@ == "en"@ ==> r == Some(Language::English),
            code@ != "zh-CN"@ && code@ != "en"@ ==> r is None,
    {
        if str_eq(code, "zh-CN") {
            Some(Language::Chinese)
        } else if str_eq(code, "en") {
            Some(Language::English)
        } else {
            None
        }
    }
}

impl Language {
    /// The language's name, written in itself.
    pub fn display_name(&self) -> (r: String)
        ensures
            r@ == self.spec_display_name(),
    {
        match self {
            Language::Chinese => "中文".to_owned(),
            Language::English => "English".to_owned(),
        }
    }

    pub open spec fn spec_display_name(self) -> Seq<char> {
        match self {
            Language::Chinese => "中文"@,
            Language::English => "English"@,
        }
    }
}

/// The Chinese text of a message identifier, where one is known.
pub open spec fn spec_chinese_translation(key: Seq<char>) -> Option<Seq<char>> {
    if key == "app.title"@ {
        Some("Rust Project Purger"@)
    } else if key == "menu.file"@ {
        Some("文件"@)
    } else if key == "menu.settings"@ {
        Some("设置"@)
    } else if key == "menu.help"@ {
        Some("帮助"@)
    } else if key == "menu.select_folder"@ {
        Some("选择文件夹..."@)
    } else if key == "menu.exit"@ {
        Some("退出"@)
    } else if key == "menu.preferences"@ {
        Some("首选项..."@)
    } else if key == "menu.about"@ {
        Some("关于..."@)
    } else if key == "scan.path_label"@ {
        Some("扫描路径:"@)
    } else if key == "scan.max_depth_label"@ {
        Some("最大深度:"@)
    } else if key == "scan.strategy_label"@ {
        Some("清理策略:"@)
    } else if key == "scan.recent_paths_label"@ {
        Some("最近路径:"@)
    } else if key == "scan.recent_paths_placeholder"@ {
        Some("选择最近路径..."@)
    } else if key == "scan.start_button"@ {
        Some("开始扫描"@)
    } else if key == "scan.scanning_status"@ {
        Some("正在扫描..."@)
    } else if key == "scan.strategy_cargo_clean"@ {
        Some("Cargo Clean (推荐)"@)
    } else if key == "scan.strategy_direct_delete"@ {
        Some("直接删除"@)
    } else if key == "projects.empty_message"@ {
        Some("点击扫描按钮开始查找Rust项目"@)
    } else if key == "projects.found_message"@ {
        Some("找到 %{count} 个Rust项目"@)
    } else if key == "projects.selected_message"@ {
        Some("已选中: %{count} 个项目"@)
    } else if key == "projects.cleanable_size"@ {
        Some("可清理: %{size}"@)
    } else if key == "projects.clean_button"@ {
        Some("清理选中项目"@)
    } else if key == "projects.select_all"@ {
        Some("全选"@)
    } else if key == "projects.select_none"@ {
        Some("全不选"@)
    } else if key == "projects.invert_selection"@ {
        Some("反选"@)
    } else if key == "progress.scan_label"@ {
        Some("扫描进度:"@)
    } else if key == "progress.clean_label"@ {
        Some("清理进度:"@)
    } else if key == "progress.current_project"@ {
        Some("当前项目:"@)
    } else if key == "progress.freed_size"@ {
        Some("已释放:"@)
    } else if key == "progress.last_result"@ {
        Some("上次清理结果:"@)
    } else if key == "progress.cleaned_projects"@ {
        Some("成功清理: %{count} 个项目"@)
    } else if key == "progress.freed_space"@ {
        Some("释放空间: %{size}"@)
    } else if key == "progress.duration"@ {
        Some("耗时: %{ms}ms"@)
    } else if key == "progress.failed_projects"@ {
        Some("失败项目: %{count} 个"@)
    } else if key == "dialog.settings_title"@ {
        Some("设置"@)
    } else if key == "dialog.about_title"@ {
        Some("关于"@)
    } else if key == "dialog.max_recent_paths"@ {
        Some("最大最近路径数:"@)
    } else if key == "dialog.auto_save_settings"@ {
        Some("自动保存设置"@)
    } else if key == "dialog.clear_recent_paths"@ {
        Some("清除最近路径"@)
    } else if key == "dialog.reset_defaults"@ {
        Some("重置为默认"@)
    } else if key == "dialog.ok"@ {
        Some("确定"@)
    } else if key == "dialog.cancel"@ {
        Some("取消"@)
    } else if key == "about.version"@ {
        Some("版本 0.1.0"@)
    } else if key == "about.description1"@ {
        Some("一个用于清理Rust项目构建目录的工具"@)
    } else if key == "about.description2"@ {
        Some("支持批量扫描和选择性清理"@)
    } else if key == "about.footer"@ {
        Some("使用egui构建 • 开源软件"@)
    } else if key == "strategy.cargo_clean"@ {
        Some("Cargo Clean"@)
    } else if key == "strategy.direct_delete"@ {
        Some("直接删除"@)
    } else if key == "language.label"@ {
        Some("语言:"@)
    } else if key == "language.chinese"@ {
        Some("中文"@)
    } else if key == "language.english"@ {
        Some("English"@)
    } else {
        None
    }
}

/// The Chinese text of a message identifier, where one is known.
pub fn get_chinese_translation(key: &str) -> (r: Option<String>)
    ensures
        match (r, spec_chinese_translation(key@)) {
            (Some(v), Some(sv)) => v@ == sv,
            (None, None) => true,
            _ => false,
        },
{
    if str_eq(key, "app.title") {
        Some("Rust Project Purger".to_owned())
    } else if str_eq(key, "menu.file") {
        Some("文件".to_owned())
    } else if str_eq(key, "menu.settings") {
        Some("设置".to_owned())
    } else if str_eq(key, "menu.help") {
        Some("帮助".to_owned())
    } else if str_eq(key, "menu.select_folder") {
        Some("选择文件夹...".to_owned())
    } else if str_eq(key, "menu.exit") {
        Some("退出".to_owned())
    } else if str_eq(key, "menu.preferences") {
        Some("首选项...".to_owned())
    } else if str_eq(key, "menu.about") {
        Some("关于...".to_owned())
    } else if str_eq(key, "scan.path_label") {
        Some("扫描路径:".to_owned())
    } else if str_eq(key, "scan.max_depth_label") {
        Some("最大深度:".to_owned())
    } else if str_eq(key, "scan.strategy_label") {
        Some("清理策略:".to_owned())
    } else if str_eq(key, "scan.recent_paths_label") {
        Some("最近路径:".to_owned())
    } else if str_eq(key, "scan.recent_paths_placeholder") {
        Some("选择最近路径...".to_owned())
    } else if str_eq(key, "scan.start_button") {
        Some("开始扫描".to_owned())
    } else if str_eq(key, "scan.scanning_status") {
        Some("正在扫描...".to_owned())
    } else if str_eq(key, "scan.strategy_cargo_clean") {
        Some("Cargo Clean (推荐)".to_owned())
    } else if str_eq(key, "scan.strategy_direct_delete") {
        Some("直接删除".to_owned())
    } else if str_eq(key, "projects.empty_message") {
        Some("点击扫描按钮开始查找Rust项目".to_owned())
    } else if str_eq(key, "projects.found_message") {
        Some("找到 %{count} 个Rust项目".to_owned())
    } else if str_eq(key, "projects.selected_message") {
        Some("已选中: %{count} 个项目".to_owned())
    } else if str_eq(key, "projects.cleanable_size") {
        Some("可清理: %{size}".to_owned())
    } else if str_eq(key, "projects.clean_button") {
        Some("清理选中项目".to_owned())
    } else if str_eq(key, "projects.select_all") {
        Some("全选".to_owned())
    } else if str_eq(key, "projects.select_none") {
        Some("全不选".to_owned())
    } else if str_eq(key, "projects.invert_selection") {
        Some("反选".to_owned())
    } else if str_eq(key, "progress.scan_label") {
        Some("扫描进度:".to_owned())
    } else if str_eq(key, "progress.clean_label") {
        Some("清理进度:".to_owned())
    } else if str_eq(key, "progress.current_project") {
        Some("当前项目:".to_owned())
    } else if str_eq(key, "progress.freed_size") {
        Some("已释放:".to_owned())
    } else if str_eq(key, "progress.last_result") {
        Some("上次清理结果:".to_owned())
    } else if str_eq(key, "progress.cleaned_projects") {
        Some("成功清理: %{count} 个项目".to_owned())
    } else if str_eq(key, "progress.freed_space") {
        Some("释放空间: %{size}".to_owned())
    } else if str_eq(key, "progress.duration") {
        Some("耗时: %{ms}ms".to_owned())
    } else if str_eq(key, "progress.failed_projects") {
        Some("失败项目: %{count} 个".to_owned())
    } else if str_eq(key, "dialog.settings_title") {
        Some("设置".to_owned())
    } else if str_eq(key, "dialog.about_title") {
        Some("关于".to_owned())
    } else if str_eq(key, "dialog.max_recent_paths") {
        Some("最大最近路径数:".to_owned())
    } else if str_eq(key, "dialog.auto_save_settings") {
        Some("自动保存设置".to_owned())
    } else if str_eq(key, "dialog.clear_recent_paths") {
        Some("清除最近路径".to_owned())
    } else if str_eq(key, "dialog.reset_defaults") {
        Some("重置为默认".to_owned())
    } else if str_eq(key, "dialog.ok") {
        Some("确定".to_owned())
    } else if str_eq(key, "dialog.cancel") {
        Some("取消".to_owned())
    } else if str_eq(key, "about.version") {
        Some("版本 0.1.0".to_owned())
    } else if str_eq(key, "about.description1") {
        Some("一个用于清理Rust项目构建目录的工具".to_owned())
    } else if str_eq(key, "about.description2") {
        Some("支持批量扫描和选择性清理".to_owned())
    } else if str_eq(key, "about.footer") {
        Some("使用egui构建 • 开源软件".to_owned())
    } else if str_eq(key, "strategy.cargo_clean") {
        Some("Cargo Clean".to_owned())
    } else if str_eq(key, "strategy.direct_delete") {
        Some("直接删除".to_owned())
    } else if str_eq(key, "language.label") {
        Some("语言:".to_owned())
    } else if str_eq(key, "language.chinese") {
        Some("中文".to_owned())
    } else if str_eq(key, "language.english") {
        Some("English".to_owned())
    } else {
        None
    }
}

/// The English text of a message identifier, where one is known.
pub open spec fn spec_english_translation(key: Seq<char>) -> Option<Seq<char>> {
    if key == "app.title"@ {
        Some("Rust Project Purger"@)
    } else if key == "menu.file"@ {
        Some("File"@)
    } else if key == "menu.settings"@ {
        Some("Settings"@)
    } else if key == "menu.help"@ {
        Some("Help"@)
    } else if key == "menu.select_folder"@ {
        Some("Select Folder..."@)
    } else if key == "menu.exit"@ {
        Some("Exit"@)
    } else if key == "menu.preferences"@ {
        Some("Preferences..."@)
    } else if key == "menu.about"@ {
        Some("About..."@)
    } else if key == "scan.path_label"@ {
        Some("Scan Path:"@)
    } else if key == "scan.max_depth_label"@ {
        Some("Max Depth:"@)
    } else if key == "scan.strategy_label"@ {
        Some("Clean Strategy:"@)
    } else if key == "scan.recent_paths_label"@ {
        Some("Recent Paths:"@)
    } else if key == "scan.recent_paths_placeholder"@ {
        Some("Select recent path..."@)
    } else if key == "scan.start_button"@ {
        Some("Start Scan"@)
    } else if key == "scan.scanning_status"@ {
        Some("Scanning..."@)
    } else if key == "scan.strategy_cargo_clean"@ {
        Some("Cargo Clean (Recommended)"@)
    } else if key == "scan.strategy_direct_delete"@ {
        Some("Direct Delete"@)
    } else if key == "projects.empty_message"@ {
        Some("Click scan button to start finding Rust projects"@)
    } else if key == "projects.found_message"@ {
        Some("Found %{count} Rust projects"@)
    } else if key == "projects.selected_message"@ {
        Some("Selected: %{count} projects"@)
    } else if key == "projects.cleanable_size"@ {
        Some("Cleanable: %{size}"@)
    } else if key == "projects.clean_button"@ {
        Some("Clean Selected Projects"@)
    } else if key == "projects.select_all"@ {
        Some("Select All"@)
    } else if key == "projects.select_none"@ {
        Some("Select None"@)
    } else if key == "projects.invert_selection"@ {
        Some("Invert Selection"@)
    } else if key == "progress.scan_label"@ {
        Some("Scan Progress:"@)
    } else if key == "progress.clean_label"@ {
        Some("Clean Progress:"@)
    } else if key == "progress.current_project"@ {
        Some("Current Project:"@)
    } else if key == "progress.freed_size"@ {
        Some("Freed:"@)
    } else if key == "progress.last_result"@ {
        Some("Last Clean Result:"@)
    } else if key == "progress.cleaned_projects"@ {
        Some("Successfully cleaned: %{count} projects"@)
    } else if key == "progress.freed_space"@ {
        Some("Freed space: %{size}"@)
    } else if key == "progress.duration"@ {
        Some("Duration: %{ms}ms"@)
    } else if key == "progress.failed_projects"@ {
        Some("Failed projects: %{count}"@)
    } else if key == "dialog.settings_title"@ {
        Some("Settings"@)
    } else if key == "dialog.about_title"@ {
        Some("About"@)
    } else if key == "dialog.max_recent_paths"@ {
        Some("Max Recent Paths:"@)
    } else if key == "dialog.auto_save_settings"@ {
        Some("Auto Save Settings"@)
    } else if key == "dialog.clear_recent_paths"@ {
        Some("Clear Recent Paths"@)
    } else if key == "dialog.reset_defaults"@ {
        Some("Reset to Defaults"@)
    } else if key == "dialog.ok"@ {
        Some("OK"@)
    } else if key == "dialog.cancel"@ {
        Some("Cancel"@)
    } else if key == "about.version"@ {
        Some("Version 0.1.0"@)
    } else if key == "about.description1"@ {
        Some("A tool for cleaning Rust project build directories"@)
    } else if key == "about.description2"@ {
        Some("Supports batch scanning and selective cleaning"@)
    } else if key == "about.footer"@ {
        Some("Built with egui • Open Source Software"@)
    } else if key == "strategy.cargo_clean"@ {
        Some("Cargo Clean"@)
    } else if key == "strategy.direct_delete"@ {
        Some("Direct Delete"@)
    } else if key == "language.label"@ {
        Some("Language:"@)
    } else if key == "language.chinese"@ {
        Some("中文"@)
    } else if key == "language.english"@ {
        Some("English"@)
    } else {
        None
    }
}

/// The English text of a message identifier, where one is known.
pub fn get_english_translation(key: &str) -> (r: Option<String>)
    ensures
        match (r, spec_english_translation(key@)) {
            (Some(v), Some(sv)) => v@ == sv,
            (None, None) => true,
            _ => false,
        },
{
    if str_eq(key, "app.title") {
        Some("Rust Project Purger".to_owned())
    } else if str_eq(key, "menu.file") {
        Some("File".to_owned())
    } else if str_eq(key, "menu.settings") {
        Some("Settings".to_owned())
    } else if str_eq(key, "menu.help") {
        Some("Help".to_owned())
    } else if str_eq(key, "menu.select_folder") {
        Some("Select Folder...".to_owned())
    } else if str_eq(key, "menu.exit") {
        Some("Exit".to_owned())
    } else if str_eq(key, "menu.preferences") {
        Some("Preferences...".to_owned())
    } else if str_eq(key, "menu.about") {
        Some("About...".to_owned())
    } else if str_eq(key, "scan.path_label") {
        Some("Scan Path:".to_owned())
    } else if str_eq(key, "scan.max_depth_label") {
        Some("Max Depth:".to_owned())
    } else if str_eq(key, "scan.strategy_label") {
        Some("Clean Strategy:".to_owned())
    } else if str_eq(key, "scan.recent_paths_label") {
        Some("Recent Paths:".to_owned())
    } else if str_eq(key, "scan.recent_paths_placeholder") {
        Some("Select recent path...".to_owned())
    } else if str_eq(key, "scan.start_button") {
        Some("Start Scan".to_owned())
    } else if str_eq(key, "scan.scanning_status") {
        Some("Scanning...".to_owned())
    } else if str_eq(key, "scan.strategy_cargo_clean") {
        Some("Cargo Clean (Recommended)".to_owned())
    } else if str_eq(key, "scan.strategy_direct_delete") {
        Some("Direct Delete".to_owned())
    } else if str_eq(key, "projects.empty_message") {
        Some("Click scan button to start finding Rust projects".to_owned())
    } else if str_eq(key, "projects.found_message") {
        Some("Found %{count} Rust projects".to_owned())
    } else if str_eq(key, "projects.selected_message") {
        Some("Selected: %{count} projects".to_owned())
    } else if str_eq(key, "projects.cleanable_size") {
        Some("Cleanable: %{size}".to_owned())
    } else if str_eq(key, "projects.clean_button") {
        Some("Clean Selected Projects".to_owned())
    } else if str_eq(key, "projects.select_all") {
        Some("Select All".to_owned())
    } else if str_eq(key, "projects.select_none") {
        Some("Select None".to_owned())
    } else if str_eq(key, "projects.invert_selection") {
        Some("Invert Selection".to_owned())
    } else if str_eq(key, "progress.scan_label") {
        Some("Scan Progress:".to_owned())
    } else if str_eq(key, "progress.clean_label") {
        Some("Clean Progress:".to_owned())
    } else if str_eq(key, "progress.current_project") {
        Some("Current Project:".to_owned())
    } else if str_eq(key, "progress.freed_size") {
        Some("Freed:".to_owned())
    } else if str_eq(key, "progress.last_result") {
        Some("Last Clean Result:".to_owned())
    } else if str_eq(key, "progress.cleaned_projects") {
        Some("Successfully cleaned: %{count} projects".to_owned())
    } else if str_eq(key, "progress.freed_space") {
        Some("Freed space: %{size}".to_owned())
    } else if str_eq(key, "progress.duration") {
        Some("Duration: %{ms}ms".to_owned())
    } else if str_eq(key, "progress.failed_projects") {
        Some("Failed projects: %{count}".to_owned())
    } else if str_eq(key, "dialog.settings_title") {
        Some("Settings".to_owned())
    } else if str_eq(key, "dialog.about_title") {
        Some("About".to_owned())
    } else if str_eq(key, "dialog.max_recent_paths") {
        Some("Max Recent Paths:".to_owned())
    } else if str_eq(key, "dialog.auto_save_settings") {
        Some("Auto Save Settings".to_owned())
    } else if str_eq(key, "dialog.clear_recent_paths") {
        Some("Clear Recent Paths".to_owned())
    } else if str_eq(key, "dialog.reset_defaults") {
        Some("Reset to Defaults".to_owned())
    } else if str_eq(key, "dialog.ok") {
        Some("OK".to_owned())
    } else if str_eq(key, "dialog.cancel") {
        Some("Cancel".to_owned())
    } else if str_eq(key, "about.version") {
        Some("Version 0.1.0".to_owned())
    } else if str_eq(key, "about.description1") {
        Some("A tool for cleaning Rust project build directories".to_owned())
    } else if str_eq(key, "about.description2") {
        Some("Supports batch scanning and selective cleaning".to_owned())
    } else if str_eq(key, "about.footer") {
        Some("Built with egui • Open Source Software".to_owned())
    } else if str_eq(key, "strategy.cargo_clean") {
        Some("Cargo Clean".to_owned())
    } else if str_eq(key, "strategy.direct_delete") {
        Some("Direct Delete".to_owned())
    } else if str_eq(key, "language.label") {
        Some("Language:".to_owned())
    } else if str_eq(key, "language.chinese") {
        Some("中文".to_owned())
    } else if str_eq(key, "language.english") {
        Some("English".to_owned())
    } else {
        None
    }
}

/// The text a message identifier renders as in a language: its entry in
/// that language's table, or the identifier itself where the table has
/// none.
pub open spec fn spec_get_translation(key: Seq<char>, language: Language) -> Seq<char> {
    let entry = match language {
        Language::Chinese => spec_chinese_translation(key),
        Language::English => spec_english_translation(key),
    };
    match entry {
        Some(text) => text,
        None => key,
    }
}

/// Renders a message identifier in a language, falling back to the
/// identifier itself.
pub fn get_translation(key: &str, language: Language) -> (r: String)
    ensures
        r@ == spec_get_translation(key@, language),
{
    let entry = match language {
        Language::Chinese => get_chinese_translation(key),
        Language::English => get_english_translation(key),
    };
    match entry {
        Some(text) => text,
        None => key.to_owned(),
    }
}

} // verus!
