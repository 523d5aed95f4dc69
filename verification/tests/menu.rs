use sing_config::menu::{
    build_app_menu, build_edit_menu, build_file_menu, build_help_menu, build_menu, build_settings_menu,
    build_tools_menu, build_view_menu, handle_menu_event, MenuLayout, MenuTree,
};
use sing_config::menu_i18n::MenuI18n;
use sing_config::node::{collect_all_ids, MenuNode};
use sing_config::router::Action;
use sing_config::window::{WindowOp, WindowVisibility};

fn item(id: &str, label: &str, accelerator: Option<&str>) -> MenuNode {
    MenuNode::Item {
        id: id.to_string(),
        label: label.to_string(),
        accelerator: accelerator.map(|a| a.to_string()),
        enabled: true,
    }
}

fn check(id: &str, label: &str, checked: bool) -> MenuNode {
    MenuNode::CheckableItem { id: id.to_string(), label: label.to_string(), checked, enabled: true }
}

fn submenu(label: &str, children: Vec<MenuNode>) -> MenuNode {
    MenuNode::Submenu { label: label.to_string(), children }
}

fn children(node: &MenuNode) -> &Vec<MenuNode> {
    match node {
        MenuNode::Submenu { children, .. } => children,
        other => panic!("not a submenu: {:?}", other),
    }
}

fn label(node: &MenuNode) -> &str {
    match node {
        MenuNode::Submenu { label, .. } => label,
        MenuNode::Item { label, .. } => label,
        MenuNode::CheckableItem { label, .. } => label,
        MenuNode::Separator => panic!("a separator has no label"),
    }
}

fn tree_ids(tree: &MenuTree) -> Vec<String> {
    let mut ids = Vec::new();
    collect_all_ids(&tree.submenus, &mut ids);
    ids
}

fn english_app_menu() -> MenuNode {
    submenu(
        "sing-config",
        vec![
            item("app_about", "About", None),
            MenuNode::Separator,
            item("app_quit", "Quit", Some("CmdOrCtrl+Q")),
        ],
    )
}

fn english_file_menu(with_quit: bool) -> MenuNode {
    let mut nodes = vec![
        item("file_new", "New", Some("CmdOrCtrl+N")),
        item("file_open", "Open", Some("CmdOrCtrl+O")),
        submenu("Open Recent", vec![item("file_clear_recent", "Clear List", None)]),
        MenuNode::Separator,
        item("file_save", "Save", Some("CmdOrCtrl+S")),
        item("file_save_as", "Save As", Some("CmdOrCtrl+Shift+S")),
        MenuNode::Separator,
    ];
    if with_quit {
        nodes.push(item("app_quit", "Quit", Some("CmdOrCtrl+Q")));
    }
    submenu("File", nodes)
}

fn english_edit_menu() -> MenuNode {
    submenu(
        "Edit",
        vec![
            item("edit_undo", "Undo", Some("CmdOrCtrl+Z")),
            item("edit_redo", "Redo", Some("CmdOrCtrl+Shift+Z")),
            MenuNode::Separator,
            item("edit_cut", "Cut", Some("CmdOrCtrl+X")),
            item("edit_copy", "Copy", Some("CmdOrCtrl+C")),
            item("edit_paste", "Paste", Some("CmdOrCtrl+V")),
            MenuNode::Separator,
            item("edit_find", "Find", Some("CmdOrCtrl+F")),
            item("edit_replace", "Replace", Some("CmdOrCtrl+H")),
            MenuNode::Separator,
            item("edit_format", "Format", Some("CmdOrCtrl+Shift+F")),
        ],
    )
}

fn english_view_menu() -> MenuNode {
    submenu(
        "View",
        vec![
            item("view_form_mode", "Form Mode", Some("CmdOrCtrl+1")),
            item("view_json_mode", "JSON Mode", Some("CmdOrCtrl+2")),
            MenuNode::Separator,
            item("view_toggle_sidebar", "Toggle Sidebar", Some("CmdOrCtrl+B")),
            MenuNode::Separator,
            submenu(
                "Language",
                vec![check("view_language_zh", "中文", false), check("view_language_en", "English", true)],
            ),
        ],
    )
}

fn english_tools_menu() -> MenuNode {
    submenu(
        "Tools",
        vec![
            item("tools_run_check", "Run Check", Some("CmdOrCtrl+R")),
            item("tools_run_validation", "Run Validation", Some("CmdOrCtrl+Shift+V")),
            MenuNode::Separator,
            item("tools_wizard", "Wizard", None),
            item("tools_templates", "Template Library", None),
        ],
    )
}

fn english_settings_menu() -> MenuNode {
    submenu("Settings", vec![item("settings_preferences", "Preferences", Some("CmdOrCtrl+,"))])
}

fn english_help_menu() -> MenuNode {
    submenu(
        "Help",
        vec![
            item("help_shortcuts", "Keyboard Shortcuts", Some("CmdOrCtrl+Shift+?")),
            item("help_documentation", "Documentation", None),
            MenuNode::Separator,
            item("help_about", "About", None),
        ],
    )
}

fn chinese_menu_with_app_menu() -> Vec<MenuNode> {
    vec![
        submenu(
            "sing-config",
            vec![
                item("app_about", "关于", None),
                MenuNode::Separator,
                item("app_quit", "退出", Some("CmdOrCtrl+Q")),
            ],
        ),
        submenu(
            "文件",
            vec![
                item("file_new", "新建", Some("CmdOrCtrl+N")),
                item("file_open", "打开", Some("CmdOrCtrl+O")),
                submenu("打开最近", vec![item("file_clear_recent", "清除列表", None)]),
                MenuNode::Separator,
                item("file_save", "保存", Some("CmdOrCtrl+S")),
                item("file_save_as", "另存为", Some("CmdOrCtrl+Shift+S")),
                MenuNode::Separator,
            ],
        ),
        submenu(
            "编辑",
            vec![
                item("edit_undo", "撤销", Some("CmdOrCtrl+Z")),
                item("edit_redo", "重做", Some("CmdOrCtrl+Shift+Z")),
                MenuNode::Separator,
                item("edit_cut", "剪切", Some("CmdOrCtrl+X")),
                item("edit_copy", "复制", Some("CmdOrCtrl+C")),
                item("edit_paste", "粘贴", Some("CmdOrCtrl+V")),
                MenuNode::Separator,
                item("edit_find", "查找", Some("CmdOrCtrl+F")),
                item("edit_replace", "替换", Some("CmdOrCtrl+H")),
                MenuNode::Separator,
                item("edit_format", "格式化", Some("CmdOrCtrl+Shift+F")),
            ],
        ),
        submenu(
            "视图",
            vec![
                item("view_form_mode", "表单模式", Some("CmdOrCtrl+1")),
                item("view_json_mode", "JSON 模式", Some("CmdOrCtrl+2")),
                MenuNode::Separator,
                item("view_toggle_sidebar", "显示/隐藏侧边栏", Some("CmdOrCtrl+B")),
                MenuNode::Separator,
                submenu(
                    "语言",
                    vec![
                        check("view_language_zh", "中文", true),
                        check("view_language_en", "English", false),
                    ],
                ),
            ],
        ),
        submenu(
            "工具",
            vec![
                item("tools_run_check", "运行检查", Some("CmdOrCtrl+R")),
                item("tools_run_validation", "运行验证", Some("CmdOrCtrl+Shift+V")),
                MenuNode::Separator,
                item("tools_wizard", "向导", None),
                item("tools_templates", "模板库", None),
            ],
        ),
        submenu("设置", vec![item("settings_preferences", "偏好设置", Some("CmdOrCtrl+,"))]),
        submenu(
            "帮助",
            vec![
                item("help_shortcuts", "快捷键", Some("CmdOrCtrl+Shift+?")),
                item("help_documentation", "文档", None),
                MenuNode::Separator,
                item("help_about", "关于", None),
            ],
        ),
    ]
}

#[test]
fn menu_layout_for_platform() {
    assert_eq!(MenuLayout::for_platform(true), MenuLayout::ApplicationMenu);
    assert_eq!(MenuLayout::for_platform(false), MenuLayout::FileMenuWithQuit);
    assert!(MenuLayout::ApplicationMenu.app_menu());
    assert!(!MenuLayout::FileMenuWithQuit.app_menu());
}

#[test]
fn menu_node_constructors() {
    assert_eq!(MenuNode::item("a", "A", None), item("a", "A", None));
    assert_eq!(MenuNode::item("a", "A", Some("CmdOrCtrl+A")), item("a", "A", Some("CmdOrCtrl+A")));
    assert_eq!(MenuNode::check("c", "C", true), check("c", "C", true));
    assert_eq!(MenuNode::check("c", "C", false), check("c", "C", false));
    assert_eq!(MenuNode::separator(), MenuNode::Separator);
    assert_eq!(MenuNode::submenu("S", vec![MenuNode::separator()]), submenu("S", vec![MenuNode::Separator]));
    assert_ne!(MenuNode::item("a", "A", None), MenuNode::item("b", "A", None));
    assert_ne!(MenuNode::item("a", "A", None), MenuNode::item("a", "B", None));
    assert_ne!(MenuNode::item("a", "A", None), MenuNode::item("a", "A", Some("X")));
}

#[test]
fn menu_english_without_app_menu_snapshot() {
    let tree = build_menu("en", MenuLayout::FileMenuWithQuit);
    let expected = vec![
        english_file_menu(true),
        english_edit_menu(),
        english_view_menu(),
        english_tools_menu(),
        english_settings_menu(),
        english_help_menu(),
    ];
    assert_eq!(tree.submenus, expected);
}

#[test]
fn menu_english_with_app_menu_snapshot() {
    let tree = build_menu("en", MenuLayout::ApplicationMenu);
    let expected = vec![
        english_app_menu(),
        english_file_menu(false),
        english_edit_menu(),
        english_view_menu(),
        english_tools_menu(),
        english_settings_menu(),
        english_help_menu(),
    ];
    assert_eq!(tree.submenus, expected);
}

#[test]
fn menu_chinese_with_app_menu_snapshot() {
    let tree = build_menu("zh", MenuLayout::ApplicationMenu);
    assert_eq!(tree.submenus, chinese_menu_with_app_menu());
}

#[test]
fn menu_chinese_without_app_menu_snapshot() {
    let tree = build_menu("zh", MenuLayout::FileMenuWithQuit);
    let mut expected = chinese_menu_with_app_menu();
    expected.remove(0);
    match &mut expected[0] {
        MenuNode::Submenu { children, .. } => children.push(item("app_quit", "退出", Some("CmdOrCtrl+Q"))),
        _ => unreachable!(),
    }
    assert_eq!(tree.submenus, expected);
}

#[test]
fn menu_counts_for_every_locale_and_layout() {
    for locale in ["zh", "en", "fr", ""] {
        let with_app = build_menu(locale, MenuLayout::ApplicationMenu);
        let counts: Vec<usize> = with_app.submenus.iter().map(|m| children(m).len()).collect();
        assert_eq!(counts, vec![3, 7, 11, 6, 5, 1, 4], "locale {:?}", locale);

        let without = build_menu(locale, MenuLayout::FileMenuWithQuit);
        let counts: Vec<usize> = without.submenus.iter().map(|m| children(m).len()).collect();
        assert_eq!(counts, vec![8, 11, 6, 5, 1, 4], "locale {:?}", locale);

        for tree in [&with_app, &without] {
            for top in &tree.submenus {
                assert!(matches!(top, MenuNode::Submenu { .. }));
            }
            let file = tree.submenus.iter().find(|m| children(m).len() >= 7 && children(m).len() <= 8).unwrap();
            assert_eq!(children(&children(file)[2]).len(), 1);
            let view = &tree.submenus[tree.submenus.len() - 4];
            assert_eq!(children(&children(view)[5]).len(), 2);
        }
    }
}

#[test]
fn menu_unknown_locale_gives_the_english_menu() {
    for layout in [MenuLayout::ApplicationMenu, MenuLayout::FileMenuWithQuit] {
        let english = build_menu("en", layout);
        for tag in ["", "fr", "zh-CN", "ZH", "en-US"] {
            assert_eq!(build_menu(tag, layout), english, "tag {:?}", tag);
        }
        assert_ne!(build_menu("zh", layout), english);
    }
}

#[test]
fn menu_language_checkbox_follows_the_locale() {
    for layout in [MenuLayout::ApplicationMenu, MenuLayout::FileMenuWithQuit] {
        for (locale, zh_checked) in [("zh", true), ("en", false), ("fr", false), ("", false), ("zh-CN", false)] {
            let tree = build_menu(locale, layout);
            let view = &tree.submenus[tree.submenus.len() - 4];
            let languages = children(children(view).last().unwrap());
            assert_eq!(languages.len(), 2);
            match (&languages[0], &languages[1]) {
                (
                    MenuNode::CheckableItem { id: zh_id, checked: zh, enabled: zh_enabled, .. },
                    MenuNode::CheckableItem { id: en_id, checked: en, enabled: en_enabled, .. },
                ) => {
                    assert_eq!(zh_id, "view_language_zh");
                    assert_eq!(en_id, "view_language_en");
                    assert_eq!(*zh, zh_checked, "locale {:?}", locale);
                    assert_eq!(*en, !zh_checked, "locale {:?}", locale);
                    assert!(*zh_enabled && *en_enabled);
                }
                other => panic!("not two checkable items: {:?}", other),
            }
        }
    }
}

#[test]
fn menu_identifiers_are_unique_and_exact() {
    let shared_tail = [
        "edit_undo",
        "edit_redo",
        "edit_cut",
        "edit_copy",
        "edit_paste",
        "edit_find",
        "edit_replace",
        "edit_format",
        "view_form_mode",
        "view_json_mode",
        "view_toggle_sidebar",
        "view_language_zh",
        "view_language_en",
        "tools_run_check",
        "tools_run_validation",
        "tools_wizard",
        "tools_templates",
        "settings_preferences",
        "help_shortcuts",
        "help_documentation",
        "help_about",
    ];
    let file = ["file_new", "file_open", "file_clear_recent", "file_save", "file_save_as"];
    for locale in ["zh", "en", "other"] {
        let mut expected: Vec<&str> = vec!["app_about", "app_quit"];
        expected.extend(file);
        expected.extend(shared_tail);
        let ids = tree_ids(&build_menu(locale, MenuLayout::ApplicationMenu));
        assert_eq!(ids, expected);
        assert_eq!(ids.len(), 28);

        let mut expected: Vec<&str> = file.to_vec();
        expected.push("app_quit");
        expected.extend(shared_tail);
        let ids = tree_ids(&build_menu(locale, MenuLayout::FileMenuWithQuit));
        assert_eq!(ids, expected);
        assert_eq!(ids.len(), 27);

        for layout in [MenuLayout::ApplicationMenu, MenuLayout::FileMenuWithQuit] {
            let ids = tree_ids(&build_menu(locale, layout));
            for i in 0..ids.len() {
                for j in 0..ids.len() {
                    assert_eq!(ids[i] == ids[j], i == j, "{} and {}", ids[i], ids[j]);
                }
            }
        }
    }
}

#[test]
fn menu_node_ids_of_each_kind_of_node() {
    assert_eq!(item("a", "A", None).ids(), vec!["a"]);
    assert_eq!(check("c", "C", true).ids(), vec!["c"]);
    assert_eq!(MenuNode::Separator.ids(), Vec::<String>::new());
    assert_eq!(submenu("S", vec![]).ids(), Vec::<String>::new());
    let nested = submenu(
        "S",
        vec![
            item("a", "A", None),
            MenuNode::Separator,
            submenu("T", vec![check("b", "B", false), submenu("U", vec![item("c", "C", None)])]),
            item("d", "D", None),
        ],
    );
    assert_eq!(nested.ids(), vec!["a", "b", "c", "d"]);
    let mut out = vec!["x".to_string()];
    nested.collect_ids(&mut out);
    assert_eq!(out, vec!["x", "a", "b", "c", "d"]);
    let mut out = vec!["y".to_string()];
    collect_all_ids(&vec![item("p", "P", None), nested], &mut out);
    assert_eq!(out, vec!["y", "p", "a", "b", "c", "d"]);
}

#[test]
fn menu_app_menu_layout_puts_quit_in_the_app_menu() {
    for locale in ["zh", "en"] {
        let i18n = MenuI18n::new(locale);
        let tree = build_menu(locale, MenuLayout::ApplicationMenu);
        assert_eq!(tree.submenus.len(), 7);
        assert_eq!(tree.submenus[0], build_app_menu(&i18n));
        assert_eq!(label(&tree.submenus[0]), "sing-config");
        let app = children(&tree.submenus[0]);
        assert_eq!(app.len(), 3);
        assert_eq!(app[1], MenuNode::Separator);
        assert_eq!(app[2], item("app_quit", i18n.file_quit(), Some("CmdOrCtrl+Q")));

        let file = &tree.submenus[1];
        assert_eq!(label(file), i18n.file_menu());
        assert!(!file.ids().contains(&"app_quit".to_string()));
        assert_eq!(children(file).len(), 7);
        for node in children(file) {
            assert_ne!(*node, item("app_quit", i18n.file_quit(), Some("CmdOrCtrl+Q")));
        }
    }
}

#[test]
fn menu_file_layout_ends_the_file_menu_with_quit() {
    for locale in ["zh", "en"] {
        let i18n = MenuI18n::new(locale);
        let tree = build_menu(locale, MenuLayout::FileMenuWithQuit);
        assert_eq!(tree.submenus.len(), 6);
        for top in &tree.submenus {
            assert_ne!(*top, build_app_menu(&i18n));
            assert_ne!(label(top), "sing-config");
        }
        assert!(!tree_ids(&tree).contains(&"app_about".to_string()));
        let file = children(&tree.submenus[0]);
        assert_eq!(label(&tree.submenus[0]), i18n.file_menu());
        assert_eq!(file.len(), 8);
        assert_eq!(file[6], MenuNode::Separator);
        assert_eq!(file[7], item("app_quit", i18n.file_quit(), Some("CmdOrCtrl+Q")));
    }
}

#[test]
fn menu_submenu_builders_match_the_whole() {
    for locale in ["zh", "en"] {
        let i18n = MenuI18n::new(locale);
        let tree = build_menu(locale, MenuLayout::ApplicationMenu);
        assert_eq!(tree.submenus[0], build_app_menu(&i18n));
        assert_eq!(tree.submenus[1], build_file_menu(&i18n, MenuLayout::ApplicationMenu));
        assert_eq!(tree.submenus[2], build_edit_menu(&i18n));
        assert_eq!(tree.submenus[3], build_view_menu(&i18n));
        assert_eq!(tree.submenus[4], build_tools_menu(&i18n));
        assert_eq!(tree.submenus[5], build_settings_menu(&i18n));
        assert_eq!(tree.submenus[6], build_help_menu(&i18n));
        let tree = build_menu(locale, MenuLayout::FileMenuWithQuit);
        assert_eq!(tree.submenus[0], build_file_menu(&i18n, MenuLayout::FileMenuWithQuit));
        assert_eq!(tree.submenus[1], build_edit_menu(&i18n));
    }
}

#[test]
fn menu_english_submenus_one_by_one() {
    let i18n = MenuI18n::new("en");
    assert_eq!(build_app_menu(&i18n), english_app_menu());
    assert_eq!(build_file_menu(&i18n, MenuLayout::FileMenuWithQuit), english_file_menu(true));
    assert_eq!(build_file_menu(&i18n, MenuLayout::ApplicationMenu), english_file_menu(false));
    assert_eq!(build_edit_menu(&i18n), english_edit_menu());
    assert_eq!(build_view_menu(&i18n), english_view_menu());
    assert_eq!(build_tools_menu(&i18n), english_tools_menu());
    assert_eq!(build_settings_menu(&i18n), english_settings_menu());
    assert_eq!(build_help_menu(&i18n), english_help_menu());
}

#[test]
fn menu_every_item_is_enabled() {
    fn all_enabled(node: &MenuNode) -> bool {
        match node {
            MenuNode::Item { enabled, .. } => *enabled,
            MenuNode::CheckableItem { enabled, .. } => *enabled,
            MenuNode::Separator => true,
            MenuNode::Submenu { children, .. } => children.iter().all(all_enabled),
        }
    }
    for locale in ["zh", "en"] {
        for layout in [MenuLayout::ApplicationMenu, MenuLayout::FileMenuWithQuit] {
            assert!(build_menu(locale, layout).submenus.iter().all(all_enabled));
        }
    }
}

#[test]
fn menu_rebuild_is_the_only_way_to_flip_the_language() {
    let first = build_menu("zh", MenuLayout::FileMenuWithQuit);
    let again = build_menu("zh", MenuLayout::FileMenuWithQuit);
    assert_eq!(first, again);
    let other = build_menu("en", MenuLayout::FileMenuWithQuit);
    assert_ne!(first.submenus[2], other.submenus[2]);
}

#[test]
fn menu_click_on_quit_terminates() {
    let reaction = handle_menu_event(Some(WindowVisibility::Visible), "app_quit");
    assert_eq!(reaction.action, Action::Terminate);
    assert_eq!(reaction.op, None);
    assert_eq!(reaction.window, Some(WindowVisibility::Visible));
    let reaction = handle_menu_event(None, "app_quit");
    assert_eq!(reaction.action, Action::Terminate);
    assert_eq!(reaction.op, None);
    assert_eq!(reaction.window, None);
}

#[test]
fn menu_click_on_any_other_item_is_forwarded() {
    for layout in [MenuLayout::ApplicationMenu, MenuLayout::FileMenuWithQuit] {
        for id in tree_ids(&build_menu("en", layout)) {
            for window in [None, Some(WindowVisibility::Visible), Some(WindowVisibility::Hidden)] {
                let reaction = handle_menu_event(window, &id);
                if id == "app_quit" {
                    assert_eq!(reaction.action, Action::Terminate);
                } else {
                    assert_eq!(reaction.action, Action::Forward(id.clone()));
                }
                assert_eq!(reaction.op, None);
                assert_eq!(reaction.window, window);
            }
        }
    }
}

#[test]
fn menu_handler_shows_and_hides_on_the_tray_identifiers() {
    let reaction = handle_menu_event(Some(WindowVisibility::Hidden), "tray_show");
    assert_eq!(reaction.action, Action::ShowWindow);
    assert_eq!(reaction.op, Some(WindowOp::ShowAndFocus));
    assert_eq!(reaction.window, Some(WindowVisibility::Visible));
    let reaction = handle_menu_event(Some(WindowVisibility::Visible), "tray_hide");
    assert_eq!(reaction.action, Action::HideWindow);
    assert_eq!(reaction.op, Some(WindowOp::Hide));
    assert_eq!(reaction.window, Some(WindowVisibility::Hidden));
    let reaction = handle_menu_event(Some(WindowVisibility::Visible), "tray_quit");
    assert_eq!(reaction.action, Action::Forward("tray_quit".to_string()));
}
