//! The state of the shell: the active locale, and the menu bar and tray menu
//! that are installed for it.
//!
//! The locale is part of the state and is handed to every build. A menu bar
//! is replaced as a whole, never patched, so what is installed is always the
//! menu bar of one locale.

use crate::menu::{build_menu, menu_model, well_formed, MenuLayout, MenuTree};
use crate::menu_i18n::is_zh_tag;
use crate::node::NodeModel;
use crate::tray::{build_tray, tray_model, tray_well_formed, TrayTree};
use vstd::prelude::*;
use vstd::string::StringExecFns;

verus! {

/// Whether the tray menu is rebuilt when the locale changes.
#[derive(Clone, Copy, Debug, PartialEq, Eq, Structural)]
pub enum TrayPolicy {
    /// The tray menu keeps the labels of the locale it was first built for.
    KeepStartupLocale,
    /// The tray menu is rebuilt together with the menu bar.
    FollowLocale,
}

/// A menu bar together with the locale tag it was built for.
#[derive(Debug)]
struct InstalledMenu {
    locale: String,
    tree: MenuTree,
}

/// A tray menu together with the locale tag it was built for.
#[derive(Debug)]
struct InstalledTray {
    locale: String,
    tree: TrayTree,
}

/// The state of the shell.
#[derive(Debug)]
pub struct AppState {
    layout: MenuLayout,
    tray_policy: TrayPolicy,
    menu: InstalledMenu,
    tray: InstalledTray,
}

/// The model of an [`AppState`]. The installed menu bar and tray menu are
/// determined by it: see [`AppStateModel::menu`] and [`AppStateModel::tray`].
pub struct AppStateModel {
    /// The active locale tag.
    pub locale: Seq<char>,
    /// The layout of the platform, chosen once at startup.
    pub layout: MenuLayout,
    /// Whether the tray menu follows the locale.
    pub tray_policy: TrayPolicy,
    /// The locale tag that the installed tray menu was built for.
    pub tray_locale: Seq<char>,
}

impl AppStateModel {
    /// The state right after startup in `locale`.
    pub open spec fn initial(locale: Seq<char>, layout: MenuLayout, tray_policy: TrayPolicy) -> AppStateModel {
        AppStateModel { locale, layout, tray_policy, tray_locale: locale }
    }

    /// The menu bar that is installed in this state.
    pub open spec fn menu(self) -> Seq<NodeModel> {
        menu_model(is_zh_tag(self.locale), self.layout)
    }

    /// The tray menu that is installed in this state.
    pub open spec fn tray(self) -> Seq<NodeModel> {
        tray_model(is_zh_tag(self.tray_locale))
    }

    /// A tray menu that follows the locale was built for the active locale.
    pub open spec fn consistent(self) -> bool {
        self.tray_policy is FollowLocale ==> self.tray_locale == self.locale
    }

    /// The state after a switch to `locale`: the menu bar is that of
    /// `locale`; the tray menu is, too, where it follows the locale, and is
    /// left as it was where it does not.
    pub open spec fn with_locale(self, locale: Seq<char>) -> AppStateModel {
        AppStateModel {
            locale,
            layout: self.layout,
            tray_policy: self.tray_policy,
            tray_locale: if self.tray_policy is FollowLocale {
                locale
            } else {
                self.tray_locale
            },
        }
    }
}

impl View for AppState {
    type V = AppStateModel;

    closed spec fn view(&self) -> AppStateModel {
        AppStateModel {
            locale: self.menu.locale@,
            layout: self.layout,
            tray_policy: self.tray_policy,
            tray_locale: self.tray.locale@,
        }
    }
}

impl AppState {
    #[verifier::type_invariant]
    spec fn inv(self) -> bool {
        &&& self.menu.tree@ == menu_model(is_zh_tag(self.menu.locale@), self.layout)
        &&& self.tray.tree@ == tray_model(is_zh_tag(self.tray.locale@))
        &&& self.tray_policy is FollowLocale ==> self.tray.locale@ == self.menu.locale@
    }

    /// The state at startup: menu bar and tray menu are built for `locale`.
    pub fn new(locale: &str, layout: MenuLayout, tray_policy: TrayPolicy) -> (state: AppState)
        ensures
            state@ == AppStateModel::initial(locale@, layout, tray_policy),
    {
        AppState {
            layout,
            tray_policy,
            menu: InstalledMenu { locale: String::from_str(locale), tree: build_menu(locale, layout) },
            tray: InstalledTray { locale: String::from_str(locale), tree: build_tray(locale) },
        }
    }

    /// The active locale tag.
    pub fn locale(&self) -> (locale: &str)
        ensures
            locale@ == self@.locale,
    {
        self.menu.locale.as_str()
    }

    /// The layout of the platform.
    pub fn layout(&self) -> (layout: MenuLayout)
        ensures
            layout == self@.layout,
    {
        self.layout
    }

    /// Whether the tray menu follows the locale.
    pub fn tray_policy(&self) -> (policy: TrayPolicy)
        ensures
            policy == self@.tray_policy,
            self@.consistent(),
    {
        proof {
            use_type_invariant(self);
        }
        self.tray_policy
    }

    /// The installed menu bar: that of the active locale.
    pub fn menu(&self) -> (menu: &MenuTree)
        ensures
            menu@ == self@.menu(),
            well_formed(menu@),
    {
        proof {
            use_type_invariant(self);
            crate::shape::lemma_menu_is_well_formed(is_zh_tag(self.menu.locale@), self.layout);
        }
        &self.menu.tree
    }

    /// The installed tray menu: that of the locale it was last built for,
    /// which is the active one where the tray follows the locale.
    pub fn tray(&self) -> (tray: &TrayTree)
        ensures
            tray@ == self@.tray(),
            tray_well_formed(tray@),
            self@.consistent(),
    {
        proof {
            use_type_invariant(self);
            crate::tray::lemma_tray_is_well_formed(is_zh_tag(self.tray.locale@));
        }
        &self.tray.tree
    }

    /// Switches to `locale`: the menu bar is built anew and replaces the old
    /// one as a whole. The tray menu is rebuilt with it where the policy says
    /// so, and stays as it is otherwise.
    pub fn set_locale(&mut self, locale: &str)
        ensures
            final(self)@ == old(self)@.with_locale(locale@),
    {
        proof {
            use_type_invariant(&*self);
        }
        let menu = InstalledMenu { locale: String::from_str(locale), tree: build_menu(locale, self.layout) };
        match self.tray_policy {
            TrayPolicy::FollowLocale => {
                let tray = InstalledTray { locale: String::from_str(locale), tree: build_tray(locale) };
                *self = AppState { layout: self.layout, tray_policy: self.tray_policy, menu, tray };
            },
            TrayPolicy::KeepStartupLocale => {
                self.menu = menu;
            },
        }
    }
}

} // verus!
