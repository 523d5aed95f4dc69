//! The locale text table: every label that the menu bar and the tray show,
//! in Chinese and in English.
//!
//! A locale tag selects Chinese when it is exactly `zh`; every other tag
//! selects English. The labels are keyed by [`TextKey`], so a label that
//! does not exist cannot be asked for.

use crate::compare::str_eq;
use vstd::prelude::*;
use vstd::string::StringExecFns;

verus! {

/// The semantic keys of the text table, one per label.
#[derive(Clone, Copy, Debug, PartialEq, Eq, Structural)]
pub enum TextKey {
    /// Title of the application menu; the same in every locale.
    AppName,
    /// Title of the File menu.
    FileMenu,
    /// File ▸ New.
    FileNew,
    /// File ▸ Open.
    FileOpen,
    /// Title of the File ▸ Open Recent submenu.
    FileOpenRecent,
    /// File ▸ Open Recent ▸ Clear List.
    FileClearRecent,
    /// File ▸ Save.
    FileSave,
    /// File ▸ Save As.
    FileSaveAs,
    /// Quit, in the File menu or the application menu.
    FileQuit,
    /// Title of the Edit menu.
    EditMenu,
    /// Edit ▸ Undo.
    EditUndo,
    /// Edit ▸ Redo.
    EditRedo,
    /// Edit ▸ Cut.
    EditCut,
    /// Edit ▸ Copy.
    EditCopy,
    /// Edit ▸ Paste.
    EditPaste,
    /// Edit ▸ Find.
    EditFind,
    /// Edit ▸ Replace.
    EditReplace,
    /// Edit ▸ Format.
    EditFormat,
    /// Title of the View menu.
    ViewMenu,
    /// View ▸ Form Mode.
    ViewFormMode,
    /// View ▸ JSON Mode.
    ViewJsonMode,
    /// View ▸ Toggle Sidebar.
    ViewToggleSidebar,
    /// Title of the View ▸ Language submenu.
    ViewLanguage,
    /// The Chinese entry of the language submenu, written in Chinese in every locale.
    ViewLanguageZh,
    /// The English entry of the language submenu, written in English in every locale.
    ViewLanguageEn,
    /// Title of the Tools menu.
    ToolsMenu,
    /// Tools ▸ Run Check.
    ToolsRunCheck,
    /// Tools ▸ Run Validation.
    ToolsRunValidation,
    /// Tools ▸ Wizard.
    ToolsWizard,
    /// Tools ▸ Template Library.
    ToolsTemplates,
    /// Title of the Settings menu.
    SettingsMenu,
    /// Settings ▸ Preferences.
    SettingsPreferences,
    /// Title of the Help menu.
    HelpMenu,
    /// Help ▸ Keyboard Shortcuts.
    HelpShortcuts,
    /// Help ▸ Documentation.
    HelpDocumentation,
    /// About, in the Help menu or the application menu.
    HelpAbout,
    /// Tray ▸ Show.
    TrayShow,
    /// Tray ▸ Hide.
    TrayHide,
    /// Tray ▸ Quit.
    TrayQuit,
}

/// Whether a locale tag selects the Chinese column of the table.
pub open spec fn is_zh_tag(tag: Seq<char>) -> bool {
    tag == "zh"@
}

/// The label that stands under `key`, in Chinese where `zh` holds and in
/// English otherwise.
pub open spec fn label(key: TextKey, zh: bool) -> Seq<char> {
    match key {
        TextKey::AppName => "sing-config"@,
        TextKey::FileMenu => if zh {
            "文件"@
        } else {
            "File"@
        },
        TextKey::FileNew => if zh {
            "新建"@
        } else {
            "New"@
        },
        TextKey::FileOpen => if zh {
            "打开"@
        } else {
            "Open"@
        },
        TextKey::FileOpenRecent => if zh {
            "打开最近"@
        } else {
            "Open Recent"@
        },
        TextKey::FileClearRecent => if zh {
            "清除列表"@
        } else {
            "Clear List"@
        },
        TextKey::FileSave => if zh {
            "保存"@
        } else {
            "Save"@
        },
        TextKey::FileSaveAs => if zh {
            "另存为"@
        } else {
            "Save As"@
        },
        TextKey::FileQuit => if zh {
            "退出"@
        } else {
            "Quit"@
        },
        TextKey::EditMenu => if zh {
            "编辑"@
        } else {
            "Edit"@
        },
        TextKey::EditUndo => if zh {
            "撤销"@
        } else {
            "Undo"@
        },
        TextKey::EditRedo => if zh {
            "重做"@
        } else {
            "Redo"@
        },
        TextKey::EditCut => if zh {
            "剪切"@
        } else {
            "Cut"@
        },
        TextKey::EditCopy => if zh {
            "复制"@
        } else {
            "Copy"@
        },
        TextKey::EditPaste => if zh {
            "粘贴"@
        } else {
            "Paste"@
        },
        TextKey::EditFind => if zh {
            "查找"@
        } else {
            "Find"@
        },
        TextKey::EditReplace => if zh {
            "替换"@
        } else {
            "Replace"@
        },
        TextKey::EditFormat => if zh {
            "格式化"@
        } else {
            "Format"@
        },
        TextKey::ViewMenu => if zh {
            "视图"@
        } else {
            "View"@
        },
        TextKey::ViewFormMode => if zh {
            "表单模式"@
        } else {
            "Form Mode"@
        },
        TextKey::ViewJsonMode => if zh {
            "JSON 模式"@
        } else {
            "JSON Mode"@
        },
        TextKey::ViewToggleSidebar => if zh {
            "显示/隐藏侧边栏"@
        } else {
            "Toggle Sidebar"@
        },
        TextKey::ViewLanguage => if zh {
            "语言"@
        } else {
            "Language"@
        },
        TextKey::ViewLanguageZh => "中文"@,
        TextKey::ViewLanguageEn => "English"@,
        TextKey::ToolsMenu => if zh {
            "工具"@
        } else {
            "Tools"@
        },
        TextKey::ToolsRunCheck => if zh {
            "运行检查"@
        } else {
            "Run Check"@
        },
        TextKey::ToolsRunValidation => if zh {
            "运行验证"@
        } else {
            "Run Validation"@
        },
        TextKey::ToolsWizard => if zh {
            "向导"@
        } else {
            "Wizard"@
        },
        TextKey::ToolsTemplates => if zh {
            "模板库"@
        } else {
            "Template Library"@
        },
        TextKey::SettingsMenu => if zh {
            "设置"@
        } else {
            "Settings"@
        },
        TextKey::SettingsPreferences => if zh {
            "偏好设置"@
        } else {
            "Preferences"@
        },
        TextKey::HelpMenu => if zh {
            "帮助"@
        } else {
            "Help"@
        },
        TextKey::HelpShortcuts => if zh {
            "快捷键"@
        } else {
            "Keyboard Shortcuts"@
        },
        TextKey::HelpDocumentation => if zh {
            "文档"@
        } else {
            "Documentation"@
        },
        TextKey::HelpAbout => if zh {
            "关于"@
        } else {
            "About"@
        },
        TextKey::TrayShow => if zh {
            "显示"@
        } else {
            "Show"@
        },
        TextKey::TrayHide => if zh {
            "隐藏"@
        } else {
            "Hide"@
        },
        TextKey::TrayQuit => if zh {
            "退出"@
        } else {
            "Quit"@
        },
    }
}

/// The text table of one locale.
#[derive(Debug, PartialEq, Eq)]
pub struct MenuI18n {
    /// The locale tag that the table was made for.
    pub locale: String,
}

impl MenuI18n {
    /// Whether this table answers in Chinese.
    pub open spec fn zh(&self) -> bool {
        is_zh_tag(self.locale@)
    }

    /// The text table for `locale`. Any tag is accepted; one that is not
    /// `zh` gives the English table.
    pub fn new(locale: &str) -> (i18n: Self)
        ensures
            i18n.locale@ == locale@,
    {
        Self { locale: String::from_str(locale) }
    }

    /// Whether the locale tag is exactly `zh`.
    pub fn is_zh(&self) -> (zh: bool)
        ensures
            zh == self.zh(),
    {
        str_eq(self.locale.as_str(), "zh")
    }

    /// The label under `key` in this table's locale.
    pub fn text(&self, key: TextKey) -> (s: &'static str)
        ensures
            s@ == label(key, self.zh()),
    {
        let zh = self.is_zh();
        match key {
            TextKey::AppName => "sing-config",
            TextKey::FileMenu => if zh {
                "文件"
            } else {
                "File"
            },
            TextKey::FileNew => if zh {
                "新建"
            } else {
                "New"
            },
            TextKey::FileOpen => if zh {
                "打开"
            } else {
                "Open"
            },
            TextKey::FileOpenRecent => if zh {
                "打开最近"
            } else {
                "Open Recent"
            },
            TextKey::FileClearRecent => if zh {
                "清除列表"
            } else {
                "Clear List"
            },
            TextKey::FileSave => if zh {
                "保存"
            } else {
                "Save"
            },
            TextKey::FileSaveAs => if zh {
                "另存为"
            } else {
                "Save As"
            },
            TextKey::FileQuit => if zh {
                "退出"
            } else {
                "Quit"
            },
            TextKey::EditMenu => if zh {
                "编辑"
            } else {
                "Edit"
            },
            TextKey::EditUndo => if zh {
                "撤销"
            } else {
                "Undo"
            },
            TextKey::EditRedo => if zh {
                "重做"
            } else {
                "Redo"
            },
            TextKey::EditCut => if zh {
                "剪切"
            } else {
                "Cut"
            },
            TextKey::EditCopy => if zh {
                "复制"
            } else {
                "Copy"
            },
            TextKey::EditPaste => if zh {
                "粘贴"
            } else {
                "Paste"
            },
            TextKey::EditFind => if zh {
                "查找"
            } else {
                "Find"
            },
            TextKey::EditReplace => if zh {
                "替换"
            } else {
                "Replace"
            },
            TextKey::EditFormat => if zh {
                "格式化"
            } else {
                "Format"
            },
            TextKey::ViewMenu => if zh {
                "视图"
            } else {
                "View"
            },
            TextKey::ViewFormMode => if zh {
                "表单模式"
            } else {
                "Form Mode"
            },
            TextKey::ViewJsonMode => if zh {
                "JSON 模式"
            } else {
                "JSON Mode"
            },
            TextKey::ViewToggleSidebar => if zh {
                "显示/隐藏侧边栏"
            } else {
                "Toggle Sidebar"
            },
            TextKey::ViewLanguage => if zh {
                "语言"
            } else {
                "Language"
            },
            TextKey::ViewLanguageZh => "中文",
            TextKey::ViewLanguageEn => "English",
            TextKey::ToolsMenu => if zh {
                "工具"
            } else {
                "Tools"
            },
            TextKey::ToolsRunCheck => if zh {
                "运行检查"
            } else {
                "Run Check"
            },
            TextKey::ToolsRunValidation => if zh {
                "运行验证"
            } else {
                "Run Validation"
            },
            TextKey::ToolsWizard => if zh {
                "向导"
            } else {
                "Wizard"
            },
            TextKey::ToolsTemplates => if zh {
                "模板库"
            } else {
                "Template Library"
            },
            TextKey::SettingsMenu => if zh {
                "设置"
            } else {
                "Settings"
            },
            TextKey::SettingsPreferences => if zh {
                "偏好设置"
            } else {
                "Preferences"
            },
            TextKey::HelpMenu => if zh {
                "帮助"
            } else {
                "Help"
            },
            TextKey::HelpShortcuts => if zh {
                "快捷键"
            } else {
                "Keyboard Shortcuts"
            },
            TextKey::HelpDocumentation => if zh {
                "文档"
            } else {
                "Documentation"
            },
            TextKey::HelpAbout => if zh {
                "关于"
            } else {
                "About"
            },
            TextKey::TrayShow => if zh {
                "显示"
            } else {
                "Show"
            },
            TextKey::TrayHide => if zh {
                "隐藏"
            } else {
                "Hide"
            },
            TextKey::TrayQuit => if zh {
                "退出"
            } else {
                "Quit"
            },
        }
    }

    /// Title of the application menu; the same in every locale.
    pub fn app_name(&self) -> (s: &str)
        ensures
            s@ == label(TextKey::AppName, self.zh()),
    {
        self.text(TextKey::AppName)
    }

    /// Title of the File menu.
    pub fn file_menu(&self) -> (s: &str)
        ensures
            s@ == label(TextKey::FileMenu, self.zh()),
    {
        self.text(TextKey::FileMenu)
    }

    /// File ▸ New.
    pub fn file_new(&self) -> (s: &str)
        ensures
            s@ == label(TextKey::FileNew, self.zh()),
    {
        self.text(TextKey::FileNew)
    }

    /// File ▸ Open.
    pub fn file_open(&self) -> (s: &str)
        ensures
            s@ == label(TextKey::FileOpen, self.zh()),
    {
        self.text(TextKey::FileOpen)
    }

    /// Title of the File ▸ Open Recent submenu.
    pub fn file_open_recent(&self) -> (s: &str)
        ensures
            s@ == label(TextKey::FileOpenRecent, self.zh()),
    {
        self.text(TextKey::FileOpenRecent)
    }

    /// File ▸ Open Recent ▸ Clear List.
    pub fn file_clear_recent(&self) -> (s: &str)
        ensures
            s@ == label(TextKey::FileClearRecent, self.zh()),
    {
        self.text(TextKey::FileClearRecent)
    }

    /// File ▸ Save.
    pub fn file_save(&self) -> (s: &str)
        ensures
            s@ == label(TextKey::FileSave, self.zh()),
    {
        self.text(TextKey::FileSave)
    }

    /// File ▸ Save As.
    pub fn file_save_as(&self) -> (s: &str)
        ensures
            s@ == label(TextKey::FileSaveAs, self.zh()),
    {
        self.text(TextKey::FileSaveAs)
    }

    /// Quit, in the File menu or the application menu.
    pub fn file_quit(&self) -> (s: &str)
        ensures
            s@ == label(TextKey::FileQuit, self.zh()),
    {
        self.text(TextKey::FileQuit)
    }

    /// Title of the Edit menu.
    pub fn edit_menu(&self) -> (s: &str)
        ensures
            s@ == label(TextKey::EditMenu, self.zh()),
    {
        self.text(TextKey::EditMenu)
    }

    /// Edit ▸ Undo.
    pub fn edit_undo(&self) -> (s: &str)
        ensures
            s@ == label(TextKey::EditUndo, self.zh()),
    {
        self.text(TextKey::EditUndo)
    }

    /// Edit ▸ Redo.
    pub fn edit_redo(&self) -> (s: &str)
        ensures
            s@ == label(TextKey::EditRedo, self.zh()),
    {
        self.text(TextKey::EditRedo)
    }

    /// Edit ▸ Cut.
    pub fn edit_cut(&self) -> (s: &str)
        ensures
            s@ == label(TextKey::EditCut, self.zh()),
    {
        self.text(TextKey::EditCut)
    }

    /// Edit ▸ Copy.
    pub fn edit_copy(&self) -> (s: &str)
        ensures
            s@ == label(TextKey::EditCopy, self.zh()),
    {
        self.text(TextKey::EditCopy)
    }

    /// Edit ▸ Paste.
    pub fn edit_paste(&self) -> (s: &str)
        ensures
            s@ == label(TextKey::EditPaste, self.zh()),
    {
        self.text(TextKey::EditPaste)
    }

    /// Edit ▸ Find.
    pub fn edit_find(&self) -> (s: &str)
        ensures
            s@ == label(TextKey::EditFind, self.zh()),
    {
        self.text(TextKey::EditFind)
    }

    /// Edit ▸ Replace.
    pub fn edit_replace(&self) -> (s: &str)
        ensures
            s@ == label(TextKey::EditReplace, self.zh()),
    {
        self.text(TextKey::EditReplace)
    }

    /// Edit ▸ Format.
    pub fn edit_format(&self) -> (s: &str)
        ensures
            s@ == label(TextKey::EditFormat, self.zh()),
    {
        self.text(TextKey::EditFormat)
    }

    /// Title of the View menu.
    pub fn view_menu(&self) -> (s: &str)
        ensures
            s@ == label(TextKey::ViewMenu, self.zh()),
    {
        self.text(TextKey::ViewMenu)
    }

    /// View ▸ Form Mode.
    pub fn view_form_mode(&self) -> (s: &str)
        ensures
            s@ == label(TextKey::ViewFormMode, self.zh()),
    {
        self.text(TextKey::ViewFormMode)
    }

    /// View ▸ JSON Mode.
    pub fn view_json_mode(&self) -> (s: &str)
        ensures
            s@ == label(TextKey::ViewJsonMode, self.zh()),
    {
        self.text(TextKey::ViewJsonMode)
    }

    /// View ▸ Toggle Sidebar.
    pub fn view_toggle_sidebar(&self) -> (s: &str)
        ensures
            s@ == label(TextKey::ViewToggleSidebar, self.zh()),
    {
        self.text(TextKey::ViewToggleSidebar)
    }

    /// Title of the View ▸ Language submenu.
    pub fn view_language(&self) -> (s: &str)
        ensures
            s@ == label(TextKey::ViewLanguage, self.zh()),
    {
        self.text(TextKey::ViewLanguage)
    }

    /// The Chinese entry of the language submenu, written in Chinese in every locale.
    pub fn view_language_zh(&self) -> (s: &str)
        ensures
            s@ == label(TextKey::ViewLanguageZh, self.zh()),
    {
        self.text(TextKey::ViewLanguageZh)
    }

    /// The English entry of the language submenu, written in English in every locale.
    pub fn view_language_en(&self) -> (s: &str)
        ensures
            s@ == label(TextKey::ViewLanguageEn, self.zh()),
    {
        self.text(TextKey::ViewLanguageEn)
    }

    /// Title of the Tools menu.
    pub fn tools_menu(&self) -> (s: &str)
        ensures
            s@ == label(TextKey::ToolsMenu, self.zh()),
    {
        self.text(TextKey::ToolsMenu)
    }

    /// Tools ▸ Run Check.
    pub fn tools_run_check(&self) -> (s: &str)
        ensures
            s@ == label(TextKey::ToolsRunCheck, self.zh()),
    {
        self.text(TextKey::ToolsRunCheck)
    }

    /// Tools ▸ Run Validation.
    pub fn tools_run_validation(&self) -> (s: &str)
        ensures
            s@ == label(TextKey::ToolsRunValidation, self.zh()),
    {
        self.text(TextKey::ToolsRunValidation)
    }

    /// Tools ▸ Wizard.
    pub fn tools_wizard(&self) -> (s: &str)
        ensures
            s@ == label(TextKey::ToolsWizard, self.zh()),
    {
        self.text(TextKey::ToolsWizard)
    }

    /// Tools ▸ Template Library.
    pub fn tools_templates(&self) -> (s: &str)
        ensures
            s@ == label(TextKey::ToolsTemplates, self.zh()),
    {
        self.text(TextKey::ToolsTemplates)
    }

    /// Title of the Settings menu.
    pub fn settings_menu(&self) -> (s: &str)
        ensures
            s@ == label(TextKey::SettingsMenu, self.zh()),
    {
        self.text(TextKey::SettingsMenu)
    }

    /// Settings ▸ Preferences.
    pub fn settings_preferences(&self) -> (s: &str)
        ensures
            s@ == label(TextKey::SettingsPreferences, self.zh()),
    {
        self.text(TextKey::SettingsPreferences)
    }

    /// Title of the Help menu.
    pub fn help_menu(&self) -> (s: &str)
        ensures
            s@ == label(TextKey::HelpMenu, self.zh()),
    {
        self.text(TextKey::HelpMenu)
    }

    /// Help ▸ Keyboard Shortcuts.
    pub fn help_shortcuts(&self) -> (s: &str)
        ensures
            s@ == label(TextKey::HelpShortcuts, self.zh()),
    {
        self.text(TextKey::HelpShortcuts)
    }

    /// Help ▸ Documentation.
    pub fn help_documentation(&self) -> (s: &str)
        ensures
            s@ == label(TextKey::HelpDocumentation, self.zh()),
    {
        self.text(TextKey::HelpDocumentation)
    }

    /// About, in the Help menu or the application menu.
    pub fn help_about(&self) -> (s: &str)
        ensures
            s@ == label(TextKey::HelpAbout, self.zh()),
    {
        self.text(TextKey::HelpAbout)
    }

    /// Tray ▸ Show.
    pub fn tray_show(&self) -> (s: &str)
        ensures
            s@ == label(TextKey::TrayShow, self.zh()),
    {
        self.text(TextKey::TrayShow)
    }

    /// Tray ▸ Hide.
    pub fn tray_hide(&self) -> (s: &str)
        ensures
            s@ == label(TextKey::TrayHide, self.zh()),
    {
        self.text(TextKey::TrayHide)
    }

    /// Tray ▸ Quit.
    pub fn tray_quit(&self) -> (s: &str)
        ensures
            s@ == label(TextKey::TrayQuit, self.zh()),
    {
        self.text(TextKey::TrayQuit)
    }
}

/// Every key has a label in both locales: no lookup comes back empty.
pub proof fn lemma_every_label_is_present(key: TextKey, zh: bool)
    ensures
        label(key, zh).len() > 0,
{
    reveal_strlit("sing-config");
    reveal_strlit("文件");
    reveal_strlit("File");
    reveal_strlit("新建");
    reveal_strlit("New");
    reveal_strlit("打开");
    reveal_strlit("Open");
    reveal_strlit("打开最近");
    reveal_strlit("Open Recent");
    reveal_strlit("清除列表");
    reveal_strlit("Clear List");
    reveal_strlit("保存");
    reveal_strlit("Save");
    reveal_strlit("另存为");
    reveal_strlit("Save As");
    reveal_strlit("退出");
    reveal_strlit("Quit");
    reveal_strlit("编辑");
    reveal_strlit("Edit");
    reveal_strlit("撤销");
    reveal_strlit("Undo");
    reveal_strlit("重做");
    reveal_strlit("Redo");
    reveal_strlit("剪切");
    reveal_strlit("Cut");
    reveal_strlit("复制");
    reveal_strlit("Copy");
    reveal_strlit("粘贴");
    reveal_strlit("Paste");
    reveal_strlit("查找");
    reveal_strlit("Find");
    reveal_strlit("替换");
    reveal_strlit("Replace");
    reveal_strlit("格式化");
    reveal_strlit("Format");
    reveal_strlit("视图");
    reveal_strlit("View");
    reveal_strlit("表单模式");
    reveal_strlit("Form Mode");
    reveal_strlit("JSON 模式");
    reveal_strlit("JSON Mode");
    reveal_strlit("显示/隐藏侧边栏");
    reveal_strlit("Toggle Sidebar");
    reveal_strlit("语言");
    reveal_strlit("Language");
    reveal_strlit("中文");
    reveal_strlit("English");
    reveal_strlit("工具");
    reveal_strlit("Tools");
    reveal_strlit("运行检查");
    reveal_strlit("Run Check");
    reveal_strlit("运行验证");
    reveal_strlit("Run Validation");
    reveal_strlit("向导");
    reveal_strlit("Wizard");
    reveal_strlit("模板库");
    reveal_strlit("Template Library");
    reveal_strlit("设置");
    reveal_strlit("Settings");
    reveal_strlit("偏好设置");
    reveal_strlit("Preferences");
    reveal_strlit("帮助");
    reveal_strlit("Help");
    reveal_strlit("快捷键");
    reveal_strlit("Keyboard Shortcuts");
    reveal_strlit("文档");
    reveal_strlit("Documentation");
    reveal_strlit("关于");
    reveal_strlit("About");
    reveal_strlit("显示");
    reveal_strlit("Show");
    reveal_strlit("隐藏");
    reveal_strlit("Hide");
}

/// The application name does not depend on the locale.
pub proof fn lemma_app_name_is_locale_invariant()
    ensures
        label(TextKey::AppName, true) == label(TextKey::AppName, false),
{
}

/// A tag other than `zh` gives the labels that `en` gives.
pub proof fn lemma_unknown_tag_is_english(tag: Seq<char>, key: TextKey)
    requires
        tag != "zh"@,
    ensures
        label(key, is_zh_tag(tag)) == label(key, is_zh_tag("en"@)),
{
    reveal_strlit("zh");
    reveal_strlit("en");
    assert("zh"@.len() == 2 && "en"@.len() == 2);
    assert("zh"@[0] != "en"@[0]);
}

} // verus!
