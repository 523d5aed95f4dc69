//! The menu bar: its fixed shape, and the builders that produce it for a
//! locale and a platform layout.
//!
//! Every submenu has one hard-coded shape. Only the labels depend on the
//! locale, only the place of Quit depends on the layout, and only the check
//! marks of the language submenu depend on the locale that was asked for.

use crate::menu_i18n::{is_zh_tag, label, MenuI18n, TextKey};
use crate::node::{ids_of, views, MenuNode, NodeModel};
use crate::router::{menu_route, route_menu_event};
use crate::shape::lemma_menu_is_well_formed;
use crate::window::{op_for, react, visibility_after, Reaction, WindowVisibility};
use vstd::prelude::*;

verus! {

/// Where the platform wants Quit and About.
#[derive(Clone, Copy, Debug, PartialEq, Eq, Structural)]
pub enum MenuLayout {
    /// The menu bar starts with an application menu that holds About and
    /// Quit; the File menu has no Quit.
    ApplicationMenu,
    /// There is no application menu; Quit is the last item of the File menu.
    FileMenuWithQuit,
}

impl MenuLayout {
    /// Whether the menu bar starts with the application menu.
    pub open spec fn has_app_menu(self) -> bool {
        self is ApplicationMenu
    }

    /// The layout for a platform that shows an application menu
    /// (`app_menu`), or for one that does not.
    pub fn for_platform(app_menu: bool) -> (layout: MenuLayout)
        ensures
            layout.has_app_menu() == app_menu,
    {
        if app_menu {
            MenuLayout::ApplicationMenu
        } else {
            MenuLayout::FileMenuWithQuit
        }
    }

    /// Whether the menu bar starts with the application menu.
    pub fn app_menu(self) -> (yes: bool)
        ensures
            yes == self.has_app_menu(),
    {
        match self {
            MenuLayout::ApplicationMenu => true,
            MenuLayout::FileMenuWithQuit => false,
        }
    }
}

/// A menu bar: the top-level submenus in on-screen order.
#[derive(Debug, PartialEq, Eq)]
pub struct MenuTree {
    pub submenus: Vec<MenuNode>,
}

impl View for MenuTree {
    type V = Seq<NodeModel>;

    open spec fn view(&self) -> Seq<NodeModel> {
        views(self.submenus@)
    }
}

/// What every menu bar must satisfy: the top level holds submenus only, and
/// no identifier occurs twice in the whole tree.
pub open spec fn well_formed(tree: Seq<NodeModel>) -> bool {
    &&& forall|i: int| 0 <= i < tree.len() ==> #[trigger] tree[i] is Submenu
    &&& ids_of(tree).no_duplicates()
}

/// The Quit item, which stands in the application menu or in the File menu.
pub open spec fn quit_item(zh: bool) -> NodeModel {
    NodeModel::item("app_quit"@, label(TextKey::FileQuit, zh), Some("CmdOrCtrl+Q"@))
}

/// The application menu: About, a separator, Quit.
pub open spec fn app_menu_model(zh: bool) -> NodeModel {
    NodeModel::submenu(
        label(TextKey::AppName, zh),
        seq![
            NodeModel::item("app_about"@, label(TextKey::HelpAbout, zh), None),
            NodeModel::Separator,
            quit_item(zh),
        ],
    )
}

/// The Open Recent submenu of the File menu.
pub open spec fn recent_menu_model(zh: bool) -> NodeModel {
    NodeModel::submenu(
        label(TextKey::FileOpenRecent, zh),
        seq![NodeModel::item("file_clear_recent"@, label(TextKey::FileClearRecent, zh), None)],
    )
}

/// The part of the File menu that every layout shows.
pub open spec fn file_items(zh: bool) -> Seq<NodeModel> {
    seq![
        NodeModel::item("file_new"@, label(TextKey::FileNew, zh), Some("CmdOrCtrl+N"@)),
        NodeModel::item("file_open"@, label(TextKey::FileOpen, zh), Some("CmdOrCtrl+O"@)),
        recent_menu_model(zh),
        NodeModel::Separator,
        NodeModel::item("file_save"@, label(TextKey::FileSave, zh), Some("CmdOrCtrl+S"@)),
        NodeModel::item("file_save_as"@, label(TextKey::FileSaveAs, zh), Some("CmdOrCtrl+Shift+S"@)),
        NodeModel::Separator,
    ]
}

/// The File menu. Quit follows the last separator where the layout has no
/// application menu, and is absent where it has one.
pub open spec fn file_menu_model(zh: bool, layout: MenuLayout) -> NodeModel {
    NodeModel::submenu(
        label(TextKey::FileMenu, zh),
        if layout.has_app_menu() {
            file_items(zh)
        } else {
            file_items(zh).push(quit_item(zh))
        },
    )
}

/// The Edit menu.
pub open spec fn edit_menu_model(zh: bool) -> NodeModel {
    NodeModel::submenu(
        label(TextKey::EditMenu, zh),
        seq![
            NodeModel::item("edit_undo"@, label(TextKey::EditUndo, zh), Some("CmdOrCtrl+Z"@)),
            NodeModel::item("edit_redo"@, label(TextKey::EditRedo, zh), Some("CmdOrCtrl+Shift+Z"@)),
            NodeModel::Separator,
            NodeModel::item("edit_cut"@, label(TextKey::EditCut, zh), Some("CmdOrCtrl+X"@)),
            NodeModel::item("edit_copy"@, label(TextKey::EditCopy, zh), Some("CmdOrCtrl+C"@)),
            NodeModel::item("edit_paste"@, label(TextKey::EditPaste, zh), Some("CmdOrCtrl+V"@)),
            NodeModel::Separator,
            NodeModel::item("edit_find"@, label(TextKey::EditFind, zh), Some("CmdOrCtrl+F"@)),
            NodeModel::item("edit_replace"@, label(TextKey::EditReplace, zh), Some("CmdOrCtrl+H"@)),
            NodeModel::Separator,
            NodeModel::item("edit_format"@, label(TextKey::EditFormat, zh), Some("CmdOrCtrl+Shift+F"@)),
        ],
    )
}

/// The Language submenu of the View menu: one check mark, on the entry of
/// the locale that the menu was built for.
pub open spec fn language_menu_model(zh: bool) -> NodeModel {
    NodeModel::submenu(
        label(TextKey::ViewLanguage, zh),
        seq![
            NodeModel::check("view_language_zh"@, label(TextKey::ViewLanguageZh, zh), zh),
            NodeModel::check("view_language_en"@, label(TextKey::ViewLanguageEn, zh), !zh),
        ],
    )
}

/// The View menu.
pub open spec fn view_menu_model(zh: bool) -> NodeModel {
    NodeModel::submenu(
        label(TextKey::ViewMenu, zh),
        seq![
            NodeModel::item("view_form_mode"@, label(TextKey::ViewFormMode, zh), Some("CmdOrCtrl+1"@)),
            NodeModel::item("view_json_mode"@, label(TextKey::ViewJsonMode, zh), Some("CmdOrCtrl+2"@)),
            NodeModel::Separator,
            NodeModel::item(
                "view_toggle_sidebar"@,
                label(TextKey::ViewToggleSidebar, zh),
                Some("CmdOrCtrl+B"@),
            ),
            NodeModel::Separator,
            language_menu_model(zh),
        ],
    )
}

/// The Tools menu.
pub open spec fn tools_menu_model(zh: bool) -> NodeModel {
    NodeModel::submenu(
        label(TextKey::ToolsMenu, zh),
        seq![
            NodeModel::item("tools_run_check"@, label(TextKey::ToolsRunCheck, zh), Some("CmdOrCtrl+R"@)),
            NodeModel::item(
                "tools_run_validation"@,
                label(TextKey::ToolsRunValidation, zh),
                Some("CmdOrCtrl+Shift+V"@),
            ),
            NodeModel::Separator,
            NodeModel::item("tools_wizard"@, label(TextKey::ToolsWizard, zh), None),
            NodeModel::item("tools_templates"@, label(TextKey::ToolsTemplates, zh), None),
        ],
    )
}

/// The Settings menu.
pub open spec fn settings_menu_model(zh: bool) -> NodeModel {
    NodeModel::submenu(
        label(TextKey::SettingsMenu, zh),
        seq![
            NodeModel::item(
                "settings_preferences"@,
                label(TextKey::SettingsPreferences, zh),
                Some("CmdOrCtrl+,"@),
            ),
        ],
    )
}

/// The Help menu.
pub open spec fn help_menu_model(zh: bool) -> NodeModel {
    NodeModel::submenu(
        label(TextKey::HelpMenu, zh),
        seq![
            NodeModel::item("help_shortcuts"@, label(TextKey::HelpShortcuts, zh), Some("CmdOrCtrl+Shift+?"@)),
            NodeModel::item("help_documentation"@, label(TextKey::HelpDocumentation, zh), None),
            NodeModel::Separator,
            NodeModel::item("help_about"@, label(TextKey::HelpAbout, zh), None),
        ],
    )
}

/// The six menus that every layout shows, File first.
pub open spec fn shared_menus(zh: bool, layout: MenuLayout) -> Seq<NodeModel> {
    seq![
        file_menu_model(zh, layout),
        edit_menu_model(zh),
        view_menu_model(zh),
        tools_menu_model(zh),
        settings_menu_model(zh),
        help_menu_model(zh),
    ]
}

/// The whole menu bar: the shared menus, behind the application menu where
/// the layout has one.
pub open spec fn menu_model(zh: bool, layout: MenuLayout) -> Seq<NodeModel> {
    if layout.has_app_menu() {
        seq![app_menu_model(zh)] + shared_menus(zh, layout)
    } else {
        shared_menus(zh, layout)
    }
}

/// Builds the Quit item.
fn build_quit_item(i18n: &MenuI18n) -> (node: MenuNode)
    ensures
        node@ == quit_item(i18n.zh()),
{
    MenuNode::item("app_quit", i18n.file_quit(), Some("CmdOrCtrl+Q"))
}

/// Builds the application menu.
pub fn build_app_menu(i18n: &MenuI18n) -> (menu: MenuNode)
    ensures
        menu@ == app_menu_model(i18n.zh()),
{
    let mut children: Vec<MenuNode> = Vec::new();
    children.push(MenuNode::item("app_about", i18n.help_about(), None));
    children.push(MenuNode::separator());
    children.push(build_quit_item(i18n));
    assert(views(children@) =~= app_menu_model(i18n.zh())->Submenu_children);
    MenuNode::submenu(i18n.app_name(), children)
}

/// Builds the File menu for `layout`.
pub fn build_file_menu(i18n: &MenuI18n, layout: MenuLayout) -> (menu: MenuNode)
    ensures
        menu@ == file_menu_model(i18n.zh(), layout),
{
    let mut recent: Vec<MenuNode> = Vec::new();
    recent.push(MenuNode::item("file_clear_recent", i18n.file_clear_recent(), None));
    assert(views(recent@) =~= recent_menu_model(i18n.zh())->Submenu_children);

    let mut children: Vec<MenuNode> = Vec::new();
    children.push(MenuNode::item("file_new", i18n.file_new(), Some("CmdOrCtrl+N")));
    children.push(MenuNode::item("file_open", i18n.file_open(), Some("CmdOrCtrl+O")));
    children.push(MenuNode::submenu(i18n.file_open_recent(), recent));
    children.push(MenuNode::separator());
    children.push(MenuNode::item("file_save", i18n.file_save(), Some("CmdOrCtrl+S")));
    children.push(MenuNode::item("file_save_as", i18n.file_save_as(), Some("CmdOrCtrl+Shift+S")));
    children.push(MenuNode::separator());
    assert(views(children@) =~= file_items(i18n.zh()));
    if !layout.app_menu() {
        children.push(build_quit_item(i18n));
        assert(views(children@) =~= file_items(i18n.zh()).push(quit_item(i18n.zh())));
    }
    MenuNode::submenu(i18n.file_menu(), children)
}

/// Builds the Edit menu.
pub fn build_edit_menu(i18n: &MenuI18n) -> (menu: MenuNode)
    ensures
        menu@ == edit_menu_model(i18n.zh()),
{
    let mut children: Vec<MenuNode> = Vec::new();
    children.push(MenuNode::item("edit_undo", i18n.edit_undo(), Some("CmdOrCtrl+Z")));
    children.push(MenuNode::item("edit_redo", i18n.edit_redo(), Some("CmdOrCtrl+Shift+Z")));
    children.push(MenuNode::separator());
    children.push(MenuNode::item("edit_cut", i18n.edit_cut(), Some("CmdOrCtrl+X")));
    children.push(MenuNode::item("edit_copy", i18n.edit_copy(), Some("CmdOrCtrl+C")));
    children.push(MenuNode::item("edit_paste", i18n.edit_paste(), Some("CmdOrCtrl+V")));
    children.push(MenuNode::separator());
    children.push(MenuNode::item("edit_find", i18n.edit_find(), Some("CmdOrCtrl+F")));
    children.push(MenuNode::item("edit_replace", i18n.edit_replace(), Some("CmdOrCtrl+H")));
    children.push(MenuNode::separator());
    children.push(MenuNode::item("edit_format", i18n.edit_format(), Some("CmdOrCtrl+Shift+F")));
    assert(views(children@) =~= edit_menu_model(i18n.zh())->Submenu_children);
    MenuNode::submenu(i18n.edit_menu(), children)
}

/// Builds the View menu. The language submenu checks the entry of the
/// locale of `i18n` and no other.
pub fn build_view_menu(i18n: &MenuI18n) -> (menu: MenuNode)
    ensures
        menu@ == view_menu_model(i18n.zh()),
{
    let mut languages: Vec<MenuNode> = Vec::new();
    languages.push(MenuNode::check("view_language_zh", i18n.view_language_zh(), i18n.is_zh()));
    languages.push(MenuNode::check("view_language_en", i18n.view_language_en(), !i18n.is_zh()));
    assert(views(languages@) =~= language_menu_model(i18n.zh())->Submenu_children);

    let mut children: Vec<MenuNode> = Vec::new();
    children.push(MenuNode::item("view_form_mode", i18n.view_form_mode(), Some("CmdOrCtrl+1")));
    children.push(MenuNode::item("view_json_mode", i18n.view_json_mode(), Some("CmdOrCtrl+2")));
    children.push(MenuNode::separator());
    children.push(MenuNode::item("view_toggle_sidebar", i18n.view_toggle_sidebar(), Some("CmdOrCtrl+B")));
    children.push(MenuNode::separator());
    children.push(MenuNode::submenu(i18n.view_language(), languages));
    assert(views(children@) =~= view_menu_model(i18n.zh())->Submenu_children);
    MenuNode::submenu(i18n.view_menu(), children)
}

/// Builds the Tools menu.
pub fn build_tools_menu(i18n: &MenuI18n) -> (menu: MenuNode)
    ensures
        menu@ == tools_menu_model(i18n.zh()),
{
    let mut children: Vec<MenuNode> = Vec::new();
    children.push(MenuNode::item("tools_run_check", i18n.tools_run_check(), Some("CmdOrCtrl+R")));
    children.push(
        MenuNode::item("tools_run_validation", i18n.tools_run_validation(), Some("CmdOrCtrl+Shift+V")),
    );
    children.push(MenuNode::separator());
    children.push(MenuNode::item("tools_wizard", i18n.tools_wizard(), None));
    children.push(MenuNode::item("tools_templates", i18n.tools_templates(), None));
    assert(views(children@) =~= tools_menu_model(i18n.zh())->Submenu_children);
    MenuNode::submenu(i18n.tools_menu(), children)
}

/// Builds the Settings menu.
pub fn build_settings_menu(i18n: &MenuI18n) -> (menu: MenuNode)
    ensures
        menu@ == settings_menu_model(i18n.zh()),
{
    let mut children: Vec<MenuNode> = Vec::new();
    children.push(MenuNode::item("settings_preferences", i18n.settings_preferences(), Some("CmdOrCtrl+,")));
    assert(views(children@) =~= settings_menu_model(i18n.zh())->Submenu_children);
    MenuNode::submenu(i18n.settings_menu(), children)
}

/// Builds the Help menu.
pub fn build_help_menu(i18n: &MenuI18n) -> (menu: MenuNode)
    ensures
        menu@ == help_menu_model(i18n.zh()),
{
    let mut children: Vec<MenuNode> = Vec::new();
    children.push(MenuNode::item("help_shortcuts", i18n.help_shortcuts(), Some("CmdOrCtrl+Shift+?")));
    children.push(MenuNode::item("help_documentation", i18n.help_documentation(), None));
    children.push(MenuNode::separator());
    children.push(MenuNode::item("help_about", i18n.help_about(), None));
    assert(views(children@) =~= help_menu_model(i18n.zh())->Submenu_children);
    MenuNode::submenu(i18n.help_menu(), children)
}

/// Builds the menu bar for `locale` and `layout`.
///
/// Every tag is accepted: `zh` gives the Chinese labels, any other tag the
/// English ones. Each submenu is built on its own; the application menu, where
/// the layout has one, comes first.
pub fn build_menu(locale: &str, layout: MenuLayout) -> (tree: MenuTree)
    ensures
        tree@ == menu_model(is_zh_tag(locale@), layout),
        well_formed(tree@),
{
    let i18n = MenuI18n::new(locale);
    let file_menu = build_file_menu(&i18n, layout);
    let edit_menu = build_edit_menu(&i18n);
    let view_menu = build_view_menu(&i18n);
    let tools_menu = build_tools_menu(&i18n);
    let settings_menu = build_settings_menu(&i18n);
    let help_menu = build_help_menu(&i18n);

    let mut submenus: Vec<MenuNode> = Vec::new();
    if layout.app_menu() {
        submenus.push(build_app_menu(&i18n));
    }
    submenus.push(file_menu);
    submenus.push(edit_menu);
    submenus.push(view_menu);
    submenus.push(tools_menu);
    submenus.push(settings_menu);
    submenus.push(help_menu);
    proof {
        assert(views(submenus@) =~= menu_model(i18n.zh(), layout));
        lemma_menu_is_well_formed(i18n.zh(), layout);
    }
    MenuTree { submenus }
}

/// Answers a click on the menu-bar item `id`, for a window of visibility
/// `window` (`None`: there is no window).
///
/// The identifier is routed as [`route_menu_event`] says: Quit terminates,
/// and what the shell does not handle itself is forwarded unchanged.
pub fn handle_menu_event(window: Option<WindowVisibility>, id: &str) -> (reaction: Reaction)
    ensures
        reaction.action@ == menu_route(id@),
        reaction.op == op_for(menu_route(id@).transition(), window),
        reaction.window == visibility_after(menu_route(id@).transition(), window),
{
    react(route_menu_event(id), window)
}

} // verus!
