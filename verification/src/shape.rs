//! What holds of every menu bar that the builders produce: its counts, its
//! identifiers, the check marks of the language submenu, and the place of
//! Quit under each layout.

use crate::menu::{
    app_menu_model, edit_menu_model, file_items, file_menu_model, help_menu_model,
    language_menu_model, menu_model, quit_item, recent_menu_model, settings_menu_model,
    shared_menus, tools_menu_model, view_menu_model, well_formed, MenuLayout,
};
use crate::menu_i18n::{is_zh_tag, label, TextKey};
use crate::node::{ids_of, ids_upto, NodeModel};
use crate::router::{menu_route, ActionModel};
use vstd::prelude::*;

verus! {

/// The identifiers of the application menu.
pub open spec fn app_ids() -> Seq<Seq<char>> {
    seq!["app_about"@, "app_quit"@]
}

/// The identifiers of the File menu under `layout`.
pub open spec fn file_ids(layout: MenuLayout) -> Seq<Seq<char>> {
    let fixed = seq!["file_new"@, "file_open"@, "file_clear_recent"@, "file_save"@, "file_save_as"@];
    if layout.has_app_menu() {
        fixed
    } else {
        fixed.push("app_quit"@)
    }
}

/// The identifiers of the Edit menu.
pub open spec fn edit_ids() -> Seq<Seq<char>> {
    seq![
        "edit_undo"@,
        "edit_redo"@,
        "edit_cut"@,
        "edit_copy"@,
        "edit_paste"@,
        "edit_find"@,
        "edit_replace"@,
        "edit_format"@,
    ]
}

/// The identifiers of the View menu.
pub open spec fn view_ids() -> Seq<Seq<char>> {
    seq![
        "view_form_mode"@,
        "view_json_mode"@,
        "view_toggle_sidebar"@,
        "view_language_zh"@,
        "view_language_en"@,
    ]
}

/// The identifiers of the Tools menu.
pub open spec fn tools_ids() -> Seq<Seq<char>> {
    seq!["tools_run_check"@, "tools_run_validation"@, "tools_wizard"@, "tools_templates"@]
}

/// The identifiers of the Settings menu.
pub open spec fn settings_ids() -> Seq<Seq<char>> {
    seq!["settings_preferences"@]
}

/// The identifiers of the Help menu.
pub open spec fn help_ids() -> Seq<Seq<char>> {
    seq!["help_shortcuts"@, "help_documentation"@, "help_about"@]
}

/// The identifiers of the whole menu bar under `layout`, in on-screen order.
pub open spec fn menu_ids(layout: MenuLayout) -> Seq<Seq<char>> {
    let shared = file_ids(layout) + edit_ids() + view_ids() + tools_ids() + settings_ids()
        + help_ids();
    if layout.has_app_menu() {
        app_ids() + shared
    } else {
        shared
    }
}

/// Length, sixth character and last character of an identifier: enough to
/// tell any two identifiers of this crate apart.
pub open spec fn fingerprint(id: Seq<char>) -> (nat, char, char) {
    (id.len(), id[5], id[id.len() - 1])
}

/// The fingerprints of the identifiers of the menu bar.
pub proof fn lemma_menu_fingerprints()
    ensures
        fingerprint("app_about"@) == (9nat, 'b', 't'),
        fingerprint("app_quit"@) == (8nat, 'u', 't'),
        fingerprint("file_new"@) == (8nat, 'n', 'w'),
        fingerprint("file_open"@) == (9nat, 'o', 'n'),
        fingerprint("file_clear_recent"@) == (17nat, 'c', 't'),
        fingerprint("file_save"@) == (9nat, 's', 'e'),
        fingerprint("file_save_as"@) == (12nat, 's', 's'),
        fingerprint("edit_undo"@) == (9nat, 'u', 'o'),
        fingerprint("edit_redo"@) == (9nat, 'r', 'o'),
        fingerprint("edit_cut"@) == (8nat, 'c', 't'),
        fingerprint("edit_copy"@) == (9nat, 'c', 'y'),
        fingerprint("edit_paste"@) == (10nat, 'p', 'e'),
        fingerprint("edit_find"@) == (9nat, 'f', 'd'),
        fingerprint("edit_replace"@) == (12nat, 'r', 'e'),
        fingerprint("edit_format"@) == (11nat, 'f', 't'),
        fingerprint("view_form_mode"@) == (14nat, 'f', 'e'),
        fingerprint("view_json_mode"@) == (14nat, 'j', 'e'),
        fingerprint("view_toggle_sidebar"@) == (19nat, 't', 'r'),
        fingerprint("view_language_zh"@) == (16nat, 'l', 'h'),
        fingerprint("view_language_en"@) == (16nat, 'l', 'n'),
        fingerprint("tools_run_check"@) == (15nat, '_', 'k'),
        fingerprint("tools_run_validation"@) == (20nat, '_', 'n'),
        fingerprint("tools_wizard"@) == (12nat, '_', 'd'),
        fingerprint("tools_templates"@) == (15nat, '_', 's'),
        fingerprint("settings_preferences"@) == (20nat, 'n', 's'),
        fingerprint("help_shortcuts"@) == (14nat, 's', 's'),
        fingerprint("help_documentation"@) == (18nat, 'd', 'n'),
        fingerprint("help_about"@) == (10nat, 'a', 't'),
{
    reveal_strlit("app_about");
    reveal_strlit("app_quit");
    reveal_strlit("file_new");
    reveal_strlit("file_open");
    reveal_strlit("file_clear_recent");
    reveal_strlit("file_save");
    reveal_strlit("file_save_as");
    reveal_strlit("edit_undo");
    reveal_strlit("edit_redo");
    reveal_strlit("edit_cut");
    reveal_strlit("edit_copy");
    reveal_strlit("edit_paste");
    reveal_strlit("edit_find");
    reveal_strlit("edit_replace");
    reveal_strlit("edit_format");
    reveal_strlit("view_form_mode");
    reveal_strlit("view_json_mode");
    reveal_strlit("view_toggle_sidebar");
    reveal_strlit("view_language_zh");
    reveal_strlit("view_language_en");
    reveal_strlit("tools_run_check");
    reveal_strlit("tools_run_validation");
    reveal_strlit("tools_wizard");
    reveal_strlit("tools_templates");
    reveal_strlit("settings_preferences");
    reveal_strlit("help_shortcuts");
    reveal_strlit("help_documentation");
    reveal_strlit("help_about");
}

/// No identifier occurs twice in the list of a layout.
pub proof fn lemma_menu_ids_are_distinct(layout: MenuLayout)
    ensures
        menu_ids(layout).no_duplicates(),
        menu_ids(layout).len() == if layout.has_app_menu() { 28nat } else { 27nat },
{
    let ids = menu_ids(layout);
    lemma_menu_fingerprints();
    assert forall|i: int, j: int| 0 <= i < ids.len() && 0 <= j < ids.len() && i != j implies ids[i]
        != ids[j] by {
        assert(fingerprint(ids[i]) != fingerprint(ids[j]));
    }
}

/// The identifiers of the first `n` nodes are those of the first `n - 1`,
/// followed by those of the `n`-th.
proof fn lemma_ids_upto_step(nodes: Seq<NodeModel>, n: nat)
    requires
        0 < n <= nodes.len(),
    ensures
        ids_upto(nodes, n) == ids_upto(nodes, (n - 1) as nat) + nodes[n - 1].ids(),
{
}

/// The identifiers of the first `n` nodes depend on those nodes only.
proof fn lemma_ids_upto_prefix(a: Seq<NodeModel>, b: Seq<NodeModel>, n: nat)
    requires
        n <= a.len(),
        n <= b.len(),
        forall|i: int| 0 <= i < n ==> a[i] == b[i],
    ensures
        ids_upto(a, n) == ids_upto(b, n),
    decreases n,
{
    if n > 0 {
        lemma_ids_upto_prefix(a, b, (n - 1) as nat);
    }
}

/// The identifiers of the application menu, written out.
proof fn lemma_app_ids(zh: bool)
    ensures
        app_menu_model(zh).ids() == app_ids(),
{
    let items = app_menu_model(zh).children();
    assert(ids_upto(items, 0) =~= Seq::<Seq<char>>::empty());
    lemma_ids_upto_step(items, 1);
    lemma_ids_upto_step(items, 2);
    lemma_ids_upto_step(items, 3);
    assert(ids_upto(items, 3) =~= app_ids());
}

/// The identifiers of the File menu, written out.
proof fn lemma_file_ids(zh: bool, layout: MenuLayout)
    ensures
        file_menu_model(zh, layout).ids() == file_ids(layout),
{
    let recent = recent_menu_model(zh).children();
    assert(ids_upto(recent, 0) =~= Seq::<Seq<char>>::empty());
    lemma_ids_upto_step(recent, 1);
    assert(recent_menu_model(zh).ids() =~= seq!["file_clear_recent"@]);

    let fixed = file_items(zh);
    assert(ids_upto(fixed, 0) =~= Seq::<Seq<char>>::empty());
    lemma_ids_upto_step(fixed, 1);
    lemma_ids_upto_step(fixed, 2);
    lemma_ids_upto_step(fixed, 3);
    assert(ids_upto(fixed, 3) =~= seq!["file_new"@, "file_open"@, "file_clear_recent"@]);
    lemma_ids_upto_step(fixed, 4);
    lemma_ids_upto_step(fixed, 5);
    lemma_ids_upto_step(fixed, 6);
    lemma_ids_upto_step(fixed, 7);
    assert(ids_upto(fixed, 7) =~= seq![
        "file_new"@,
        "file_open"@,
        "file_clear_recent"@,
        "file_save"@,
        "file_save_as"@,
    ]);
    if !layout.has_app_menu() {
        let all = fixed.push(quit_item(zh));
        lemma_ids_upto_prefix(fixed, all, 7);
        lemma_ids_upto_step(all, 8);
        assert(ids_upto(all, 8) =~= file_ids(layout));
    }
}

/// The identifiers of the Edit menu, written out.
proof fn lemma_edit_ids(zh: bool)
    ensures
        edit_menu_model(zh).ids() == edit_ids(),
{
    let items = edit_menu_model(zh).children();
    assert(ids_upto(items, 0) =~= Seq::<Seq<char>>::empty());
    lemma_ids_upto_step(items, 1);
    lemma_ids_upto_step(items, 2);
    lemma_ids_upto_step(items, 3);
    lemma_ids_upto_step(items, 4);
    assert(ids_upto(items, 4) =~= seq!["edit_undo"@, "edit_redo"@, "edit_cut"@]);
    lemma_ids_upto_step(items, 5);
    lemma_ids_upto_step(items, 6);
    lemma_ids_upto_step(items, 7);
    lemma_ids_upto_step(items, 8);
    assert(ids_upto(items, 8) =~= seq![
        "edit_undo"@,
        "edit_redo"@,
        "edit_cut"@,
        "edit_copy"@,
        "edit_paste"@,
        "edit_find"@,
    ]);
    lemma_ids_upto_step(items, 9);
    lemma_ids_upto_step(items, 10);
    lemma_ids_upto_step(items, 11);
    assert(ids_upto(items, 11) =~= edit_ids());
}

/// The identifiers of the View menu, written out.
proof fn lemma_view_ids(zh: bool)
    ensures
        view_menu_model(zh).ids() == view_ids(),
{
    let languages = language_menu_model(zh).children();
    assert(ids_upto(languages, 0) =~= Seq::<Seq<char>>::empty());
    lemma_ids_upto_step(languages, 1);
    lemma_ids_upto_step(languages, 2);
    assert(language_menu_model(zh).ids() =~= seq!["view_language_zh"@, "view_language_en"@]);

    let items = view_menu_model(zh).children();
    assert(ids_upto(items, 0) =~= Seq::<Seq<char>>::empty());
    lemma_ids_upto_step(items, 1);
    lemma_ids_upto_step(items, 2);
    lemma_ids_upto_step(items, 3);
    lemma_ids_upto_step(items, 4);
    lemma_ids_upto_step(items, 5);
    assert(ids_upto(items, 5) =~= seq!["view_form_mode"@, "view_json_mode"@, "view_toggle_sidebar"@]);
    lemma_ids_upto_step(items, 6);
    assert(ids_upto(items, 6) =~= view_ids());
}

/// The identifiers of the Tools, Settings and Help menus, written out.
proof fn lemma_tail_ids(zh: bool)
    ensures
        tools_menu_model(zh).ids() == tools_ids(),
        settings_menu_model(zh).ids() == settings_ids(),
        help_menu_model(zh).ids() == help_ids(),
{
    let tools = tools_menu_model(zh).children();
    assert(ids_upto(tools, 0) =~= Seq::<Seq<char>>::empty());
    lemma_ids_upto_step(tools, 1);
    lemma_ids_upto_step(tools, 2);
    lemma_ids_upto_step(tools, 3);
    lemma_ids_upto_step(tools, 4);
    lemma_ids_upto_step(tools, 5);
    assert(ids_upto(tools, 5) =~= tools_ids());

    let settings = settings_menu_model(zh).children();
    assert(ids_upto(settings, 0) =~= Seq::<Seq<char>>::empty());
    lemma_ids_upto_step(settings, 1);
    assert(ids_upto(settings, 1) =~= settings_ids());

    let help = help_menu_model(zh).children();
    assert(ids_upto(help, 0) =~= Seq::<Seq<char>>::empty());
    lemma_ids_upto_step(help, 1);
    lemma_ids_upto_step(help, 2);
    lemma_ids_upto_step(help, 3);
    lemma_ids_upto_step(help, 4);
    assert(ids_upto(help, 4) =~= help_ids());
}

/// The identifiers of a sequence that starts with `first` are those of
/// `first`, followed by those of the rest.
proof fn lemma_ids_upto_prepend(first: NodeModel, rest: Seq<NodeModel>, n: nat)
    requires
        n <= rest.len(),
    ensures
        ids_upto(seq![first] + rest, n + 1) == first.ids() + ids_upto(rest, n),
    decreases n,
{
    let all = seq![first] + rest;
    if n == 0 {
        assert(ids_upto(all, 0) =~= Seq::<Seq<char>>::empty());
        assert(ids_upto(rest, 0) =~= Seq::<Seq<char>>::empty());
        lemma_ids_upto_step(all, 1);
        assert(ids_upto(all, 1) =~= first.ids() + ids_upto(rest, 0));
    } else {
        lemma_ids_upto_prepend(first, rest, (n - 1) as nat);
        lemma_ids_upto_step(all, n + 1);
        lemma_ids_upto_step(rest, n);
        assert(all[n as int] == rest[n - 1]);
        assert(ids_upto(all, n + 1) =~= first.ids() + ids_upto(rest, n));
    }
}

/// The identifiers of the six shared menus, File first.
proof fn lemma_shared_ids(zh: bool, layout: MenuLayout)
    ensures
        ids_of(shared_menus(zh, layout)) == file_ids(layout) + edit_ids() + view_ids() + tools_ids()
            + settings_ids() + help_ids(),
{
    let menus = shared_menus(zh, layout);
    lemma_file_ids(zh, layout);
    lemma_edit_ids(zh);
    lemma_view_ids(zh);
    lemma_tail_ids(zh);
    assert(menus.len() == 6);
    assert(ids_upto(menus, 0) =~= Seq::<Seq<char>>::empty());
    lemma_ids_upto_step(menus, 1);
    assert(ids_upto(menus, 1) =~= file_ids(layout));
    lemma_ids_upto_step(menus, 2);
    lemma_ids_upto_step(menus, 3);
    lemma_ids_upto_step(menus, 4);
    lemma_ids_upto_step(menus, 5);
    lemma_ids_upto_step(menus, 6);
}

/// The identifiers of a built menu bar are those of its layout, whatever the
/// locale.
pub proof fn lemma_menu_ids(zh: bool, layout: MenuLayout)
    ensures
        ids_of(menu_model(zh, layout)) == menu_ids(layout),
{
    lemma_shared_ids(zh, layout);
    if layout.has_app_menu() {
        lemma_app_ids(zh);
        lemma_ids_upto_prepend(app_menu_model(zh), shared_menus(zh, layout), 6);
    }
}

/// Identifier uniqueness: across one built menu bar, no two interactive
/// nodes share an identifier.
pub proof fn lemma_menu_ids_are_unique(zh: bool, layout: MenuLayout)
    ensures
        ids_of(menu_model(zh, layout)).no_duplicates(),
{
    lemma_menu_ids(zh, layout);
    lemma_menu_ids_are_distinct(layout);
}

/// Every built menu bar is well formed.
pub proof fn lemma_menu_is_well_formed(zh: bool, layout: MenuLayout)
    ensures
        well_formed(menu_model(zh, layout)),
{
    lemma_menu_ids_are_unique(zh, layout);
}

/// The number of children of each node of a sequence.
pub open spec fn child_counts(nodes: Seq<NodeModel>) -> Seq<nat> {
    Seq::new(nodes.len(), |i: int| nodes[i].children().len())
}

/// The fixed shape: for every locale, the menu bar has seven submenus under
/// the application-menu layout and six under the other, each with the
/// number of children of its shape. The nested Open Recent and Language
/// submenus have one and two.
pub proof fn lemma_menu_counts(zh: bool, layout: MenuLayout)
    ensures
        layout.has_app_menu() ==> child_counts(menu_model(zh, layout)) == seq![
            3nat,
            7nat,
            11nat,
            6nat,
            5nat,
            1nat,
            4nat,
        ],
        !layout.has_app_menu() ==> child_counts(menu_model(zh, layout)) == seq![
            8nat,
            11nat,
            6nat,
            5nat,
            1nat,
            4nat,
        ],
        forall|i: int|
            0 <= i < menu_model(zh, layout).len() ==> #[trigger] menu_model(zh, layout)[i] is Submenu,
        file_menu_model(zh, layout).children()[2] == recent_menu_model(zh),
        recent_menu_model(zh).children().len() == 1,
        view_menu_model(zh).children()[5] == language_menu_model(zh),
        language_menu_model(zh).children().len() == 2,
{
    let tree = menu_model(zh, layout);
    if layout.has_app_menu() {
        assert(child_counts(tree) =~= seq![3nat, 7nat, 11nat, 6nat, 5nat, 1nat, 4nat]);
    } else {
        assert(child_counts(tree) =~= seq![8nat, 11nat, 6nat, 5nat, 1nat, 4nat]);
    }
}

/// The language submenu checks exactly one of its two entries: Chinese where
/// the locale tag is `zh`, English for every other tag.
pub proof fn lemma_one_language_is_checked(tag: Seq<char>)
    ensures
        ({
            let zh = is_zh_tag(tag);
            let languages = view_menu_model(zh).children().last().children();
            &&& languages.len() == 2
            &&& languages[0] == NodeModel::check("view_language_zh"@, label(TextKey::ViewLanguageZh, zh), zh)
            &&& languages[1] == NodeModel::check("view_language_en"@, label(TextKey::ViewLanguageEn, zh), !zh)
            &&& languages[0].is_checked() == (tag == "zh"@)
            &&& languages[1].is_checked() == (tag != "zh"@)
        }),
{
}

/// Under the application-menu layout the menu bar starts with the
/// application menu, the File menu follows it, and no node of the File menu
/// is Quit or reports under Quit's identifier.
pub proof fn lemma_app_menu_layout(zh: bool)
    ensures
        ({
            let tree = menu_model(zh, MenuLayout::ApplicationMenu);
            let file = file_menu_model(zh, MenuLayout::ApplicationMenu);
            &&& tree[0] == app_menu_model(zh)
            &&& app_menu_model(zh).children().last() == quit_item(zh)
            &&& tree[1] == file
            &&& forall|i: int| 0 <= i < file.children().len() ==> file.children()[i] != quit_item(zh)
            &&& !file.ids().contains("app_quit"@)
        }),
{
    let layout = MenuLayout::ApplicationMenu;
    let file = file_menu_model(zh, layout);
    lemma_file_ids(zh, layout);
    lemma_menu_fingerprints();
    assert forall|i: int| 0 <= i < file_ids(layout).len() implies file_ids(layout)[i] != "app_quit"@ by {
        assert(fingerprint(file_ids(layout)[i]) != fingerprint("app_quit"@));
    }
}

/// Under the layout without an application menu the menu bar starts with
/// the File menu, no top-level submenu is the application menu, and the
/// File menu ends with a separator followed by Quit.
pub proof fn lemma_file_quit_layout(zh: bool)
    ensures
        ({
            let tree = menu_model(zh, MenuLayout::FileMenuWithQuit);
            let items = file_menu_model(zh, MenuLayout::FileMenuWithQuit).children();
            &&& tree[0] == file_menu_model(zh, MenuLayout::FileMenuWithQuit)
            &&& forall|i: int| 0 <= i < tree.len() ==> tree[i] != app_menu_model(zh)
            &&& !ids_of(tree).contains("app_about"@)
            &&& items.len() == 8
            &&& items[6] == NodeModel::Separator
            &&& items[7] == quit_item(zh)
        }),
{
    let layout = MenuLayout::FileMenuWithQuit;
    let tree = menu_model(zh, layout);
    assert forall|i: int| 0 <= i < tree.len() implies tree[i] != app_menu_model(zh) by {
        assert(tree[i].children().len() != 3);
        assert(app_menu_model(zh).children().len() == 3);
    }
    lemma_menu_ids(zh, layout);
    lemma_menu_fingerprints();
    assert forall|i: int| 0 <= i < menu_ids(layout).len() implies menu_ids(layout)[i] != "app_about"@ by {
        assert(fingerprint(menu_ids(layout)[i]) != fingerprint("app_about"@));
    }
}

/// The menu bar and the router agree on the identifiers: a click on any
/// item of a built menu bar terminates if the item is Quit, and is forwarded
/// under the item's own identifier otherwise. No item of the menu bar shows
/// or hides the window.
pub proof fn lemma_menu_clicks_are_forwarded(zh: bool, layout: MenuLayout, i: int)
    requires
        0 <= i < ids_of(menu_model(zh, layout)).len(),
    ensures
        ({
            let id = ids_of(menu_model(zh, layout))[i];
            menu_route(id) == if id == "app_quit"@ {
                ActionModel::Terminate
            } else {
                ActionModel::Forward(id)
            }
        }),
{
    lemma_menu_ids(zh, layout);
    lemma_menu_fingerprints();
    reveal_strlit("tray_show");
    reveal_strlit("tray_hide");
    let id = menu_ids(layout)[i];
    assert(fingerprint("tray_show"@) == (9nat, 's', 'w'));
    assert(fingerprint("tray_hide"@) == (9nat, 'h', 'e'));
    assert(fingerprint(id) != fingerprint("tray_show"@));
    assert(fingerprint(id) != fingerprint("tray_hide"@));
}

} // verus!
