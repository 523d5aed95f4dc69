//! The native shell of the sing-config desktop application, as plain data
//! and decisions: the labels of every native menu in both locales, the shape
//! of the menu bar and of the tray menu, the routing of their events, and
//! the visibility of the window.
//!
//! Nothing here touches a toolkit. The builders describe menus as
//! [`MenuNode`] trees, the handlers answer with a [`Reaction`], and the host
//! turns both into calls of its windowing toolkit.

pub mod commands;
pub mod compare;
pub mod menu;
pub mod menu_i18n;
pub mod node;
pub mod router;
pub mod shape;
pub mod state;
pub mod tray;
pub mod window;

pub use commands::{exit_app, get_current_locale, greet, set_window_title, update_menu_locale};
pub use menu::{build_menu, handle_menu_event, MenuLayout, MenuTree};
pub use menu_i18n::{MenuI18n, TextKey};
pub use node::MenuNode;
pub use router::{route_menu_event, route_tray_event, route_tray_icon_click, Action, MouseButton, MENU_EVENT};
pub use state::{AppState, TrayPolicy};
pub use tray::{
    build_tray, handle_tray_event, handle_tray_icon_click, handle_window_close, CloseReaction, TrayTree,
};
pub use window::{Reaction, Transition, WindowOp, WindowVisibility};
