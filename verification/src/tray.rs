//! The tray: its menu, what a click on each item triggers, and its icon.
//!
//! The menu is fixed. One of its items, "Show in Menu Bar", only shows that
//! the shell is pinned there: it is checked and disabled, and no click changes
//! that.

use crate::action::ShellAction;
use crate::platform::Platform;
use crate::text::same_text;
use vstd::prelude::*;

verus! {

/// An item of the tray menu.
#[derive(Clone, Copy, Debug, PartialEq, Eq, Structural)]
pub enum TrayItemId {
    OpenApp,
    OpenChat,
    ShowInMenuBar,
    Quit,
}

impl TrayItemId {
    /// The identifier under which the host knows the item.
    pub open spec fn id_text(self) -> Seq<char> {
        match self {
            TrayItemId::OpenApp => "tray_open_app"@,
            TrayItemId::OpenChat => "tray_open_chat"@,
            TrayItemId::ShowInMenuBar => "tray_show_in_menu_bar"@,
            TrayItemId::Quit => "tray_quit"@,
        }
    }

    /// The shell actions that a click on the item triggers, in order.
    pub open spec fn bound_actions(self) -> Seq<ShellAction> {
        match self {
            TrayItemId::OpenApp => seq![ShellAction::FocusMain],
            TrayItemId::OpenChat => seq![ShellAction::FocusMain, ShellAction::NewChat],
            TrayItemId::ShowInMenuBar => Seq::empty(),
            TrayItemId::Quit => seq![ShellAction::Quit],
        }
    }

    /// The identifier under which the host knows the item.
    pub fn id(self) -> (id: &'static str)
        ensures
            id@ == self.id_text(),
    {
        match self {
            TrayItemId::OpenApp => "tray_open_app",
            TrayItemId::OpenChat => "tray_open_chat",
            TrayItemId::ShowInMenuBar => "tray_show_in_menu_bar",
            TrayItemId::Quit => "tray_quit",
        }
    }

    /// The text that the item shows.
    pub fn label(self) -> (label: &'static str)
        ensures
            label@ == match self {
                TrayItemId::OpenApp => "Open Onyx"@,
                TrayItemId::OpenChat => "Open Chat Window"@,
                TrayItemId::ShowInMenuBar => "Show in Menu Bar"@,
                TrayItemId::Quit => "Quit Onyx"@,
            },
    {
        match self {
            TrayItemId::OpenApp => "Open Onyx",
            TrayItemId::OpenChat => "Open Chat Window",
            TrayItemId::ShowInMenuBar => "Show in Menu Bar",
            TrayItemId::Quit => "Quit Onyx",
        }
    }

    /// The accelerator shown beside the item, if it has one.
    pub fn accelerator(self) -> (accelerator: Option<&'static str>)
        ensures
            match self {
                TrayItemId::OpenApp => accelerator matches Some(a) && a@
                    == "CmdOrCtrl+Shift+Space"@,
                _ => accelerator is None,
            },
    {
        match self {
            TrayItemId::OpenApp => Some("CmdOrCtrl+Shift+Space"),
            _ => None,
        }
    }

    /// The shell actions that a click on the item triggers, in order.
    pub fn actions(self) -> (actions: Vec<ShellAction>)
        ensures
            actions@ == self.bound_actions(),
    {
        let mut actions: Vec<ShellAction> = Vec::new();
        match self {
            TrayItemId::OpenApp => {
                actions.push(ShellAction::FocusMain);
            },
            TrayItemId::OpenChat => {
                actions.push(ShellAction::FocusMain);
                actions.push(ShellAction::NewChat);
            },
            TrayItemId::ShowInMenuBar => {},
            TrayItemId::Quit => {
                actions.push(ShellAction::Quit);
            },
        }
        assert(actions@ =~= self.bound_actions());
        actions
    }

    /// The item that the host knows under `id`, if the tray menu has one.
    pub fn from_id(id: &str) -> (item: Option<TrayItemId>)
        ensures
            item == tray_item_of(id@),
    {
        if same_text(id, "tray_open_app") {
            Some(TrayItemId::OpenApp)
        } else if same_text(id, "tray_open_chat") {
            Some(TrayItemId::OpenChat)
        } else if same_text(id, "tray_show_in_menu_bar") {
            Some(TrayItemId::ShowInMenuBar)
        } else if same_text(id, "tray_quit") {
            Some(TrayItemId::Quit)
        } else {
            None
        }
    }
}

/// The item whose identifier is `id`.
pub open spec fn tray_item_of(id: Seq<char>) -> Option<TrayItemId> {
    if id == "tray_open_app"@ {
        Some(TrayItemId::OpenApp)
    } else if id == "tray_open_chat"@ {
        Some(TrayItemId::OpenChat)
    } else if id == "tray_show_in_menu_bar"@ {
        Some(TrayItemId::ShowInMenuBar)
    } else if id == "tray_quit"@ {
        Some(TrayItemId::Quit)
    } else {
        None
    }
}

/// Each item is found again under its own identifier, and an identifier names
/// at most the item that carries it.
pub proof fn lemma_tray_ids(item: TrayItemId, id: Seq<char>)
    ensures
        tray_item_of(item.id_text()) == Some(item),
        tray_item_of(id) == Some(item) <==> id == item.id_text(),
{
    reveal_strlit("tray_open_app");
    reveal_strlit("tray_open_chat");
    reveal_strlit("tray_show_in_menu_bar");
    reveal_strlit("tray_quit");
    assert("tray_open_app"@.len() == 13);
    assert("tray_open_chat"@.len() == 14);
    assert("tray_show_in_menu_bar"@.len() == 21);
    assert("tray_quit"@.len() == 9);
}

/// An entry of the tray menu.
#[derive(Clone, Copy, Debug, PartialEq, Eq, Structural)]
pub enum TrayEntry {
    /// An item that triggers shell actions when clicked.
    Item(TrayItemId),
    /// An item that shows a state: a check mark, and whether it can be
    /// clicked.
    Indicator { id: TrayItemId, checked: bool, enabled: bool },
    /// A line between groups of items.
    Separator,
}

/// The tray menu, from top to bottom.
pub open spec fn tray_entries() -> Seq<TrayEntry> {
    seq![
        TrayEntry::Item(TrayItemId::OpenApp),
        TrayEntry::Item(TrayItemId::OpenChat),
        TrayEntry::Separator,
        TrayEntry::Indicator { id: TrayItemId::ShowInMenuBar, checked: true, enabled: false },
        TrayEntry::Separator,
        TrayEntry::Item(TrayItemId::Quit),
    ]
}

/// The tray menu, from top to bottom.
pub fn build_tray_menu() -> (entries: Vec<TrayEntry>)
    ensures
        entries@ == tray_entries(),
{
    let mut entries: Vec<TrayEntry> = Vec::new();
    entries.push(TrayEntry::Item(TrayItemId::OpenApp));
    entries.push(TrayEntry::Item(TrayItemId::OpenChat));
    entries.push(TrayEntry::Separator);
    entries.push(
        TrayEntry::Indicator { id: TrayItemId::ShowInMenuBar, checked: true, enabled: false },
    );
    entries.push(TrayEntry::Separator);
    entries.push(TrayEntry::Item(TrayItemId::Quit));
    assert(entries@ =~= tray_entries());
    entries
}

/// The shell actions that a click on the tray item known as `id` triggers:
/// those of the item, and none for an identifier that names no item.
pub open spec fn tray_click_actions(id: Seq<char>) -> Seq<ShellAction> {
    match tray_item_of(id) {
        Some(item) => item.bound_actions(),
        None => Seq::empty(),
    }
}

/// The shell actions that a click on the tray item known as `id` triggers.
pub fn handle_tray_menu_event(id: &str) -> (actions: Vec<ShellAction>)
    ensures
        actions@ == tray_click_actions(id@),
{
    match TrayItemId::from_id(id) {
        Some(item) => item.actions(),
        None => Vec::new(),
    }
}

/// What the "Show in Menu Bar" item shows.
#[derive(Clone, Copy, Debug, PartialEq, Eq, Structural)]
pub struct PinState {
    pub checked: bool,
    pub enabled: bool,
}

/// The state in which the item is built: checked, and disabled.
pub open spec fn pinned() -> PinState {
    PinState { checked: true, enabled: false }
}

/// The state of the item after a click on the tray item known as `id`.
pub open spec fn pin_after_click(state: PinState, id: Seq<char>) -> PinState {
    state
}

/// The state of the item after the clicks `ids`, in order.
pub open spec fn pin_after_clicks(state: PinState, ids: Seq<Seq<char>>) -> PinState
    decreases ids.len(),
{
    if ids.len() == 0 {
        state
    } else {
        pin_after_click(pin_after_clicks(state, ids.drop_last()), ids.last())
    }
}

/// The tray as the shell keeps it between clicks.
#[derive(Clone, Copy, Debug)]
pub struct TrayState {
    pin: PinState,
}

impl TrayState {
    /// What the "Show in Menu Bar" item shows.
    pub closed spec fn pin_state(self) -> PinState {
        self.pin
    }

    /// The tray before any click.
    pub fn new() -> (state: TrayState)
        ensures
            state.pin_state() == pinned(),
    {
        TrayState { pin: PinState { checked: true, enabled: false } }
    }

    /// What the "Show in Menu Bar" item shows.
    pub fn pin(&self) -> (pin: PinState)
        ensures
            pin == self.pin_state(),
    {
        self.pin
    }

    /// Takes a click on the tray item known as `id`: returns the shell actions
    /// to run, and leaves the "Show in Menu Bar" item as it is.
    pub fn click(&mut self, id: &str) -> (actions: Vec<ShellAction>)
        ensures
            actions@ == tray_click_actions(id@),
            final(self).pin_state() == pin_after_click(old(self).pin_state(), id@),
            final(self).pin_state() == old(self).pin_state(),
    {
        handle_tray_menu_event(id)
    }
}

/// Whatever is clicked in the tray, in whatever order, the "Show in Menu Bar"
/// item shows afterwards what it showed before.
pub proof fn lemma_pin_never_changes(state: PinState, ids: Seq<Seq<char>>)
    ensures
        pin_after_clicks(state, ids) == state,
    decreases ids.len(),
{
    if ids.len() > 0 {
        lemma_pin_never_changes(state, ids.drop_last());
    }
}

/// The identifier of the tray icon.
pub fn tray_icon_id() -> (id: &'static str)
    ensures
        id@ == "onyx-tray"@,
{
    "onyx-tray"
}

/// The tooltip of the tray icon.
pub fn tray_tooltip() -> (tooltip: &'static str)
    ensures
        tooltip@ == "Onyx"@,
{
    "Onyx"
}

/// Where the image of the tray icon comes from.
#[derive(Clone, Copy, Debug, PartialEq, Eq, Structural)]
pub enum IconSource {
    /// The image that ships with the shell.
    Bundled,
    /// The icon that the host gives to windows.
    HostDefault,
}

/// How the tray icon is set up.
#[derive(Clone, Copy, Debug, PartialEq, Eq, Structural)]
pub struct TrayIconPlan {
    /// The image to show, if there is any to show.
    pub icon: Option<IconSource>,
    /// Whether the system may recolour the image to suit the menu bar.
    pub icon_as_template: bool,
    /// Whether the tray menu is attached to the icon.
    pub attach_menu: bool,
}

/// The set-up of the tray icon: the bundled image if it decodes, else the
/// host's default icon if it has one, else none; recoloured by the system
/// where the windows carry an overlay title bar; with the menu if it could be
/// built.
pub open spec fn tray_icon_plan(
    bundled_decodes: bool,
    host_has_default: bool,
    menu_built: bool,
    platform: Platform,
) -> TrayIconPlan {
    let icon = if bundled_decodes {
        Some(IconSource::Bundled)
    } else if host_has_default {
        Some(IconSource::HostDefault)
    } else {
        None
    };
    TrayIconPlan {
        icon,
        icon_as_template: icon is Some && platform == Platform::MacOs,
        attach_menu: menu_built,
    }
}

/// The set-up of the tray icon, given whether the bundled image decodes,
/// whether the host has a default icon, and whether the tray menu was built.
pub fn setup_tray_icon(
    bundled_decodes: bool,
    host_has_default: bool,
    menu_built: bool,
    platform: Platform,
) -> (plan: TrayIconPlan)
    ensures
        plan == tray_icon_plan(bundled_decodes, host_has_default, menu_built, platform),
{
    let icon = if bundled_decodes {
        Some(IconSource::Bundled)
    } else if host_has_default {
        Some(IconSource::HostDefault)
    } else {
        None
    };
    let icon_as_template = icon.is_some() && platform == Platform::MacOs;
    TrayIconPlan { icon, icon_as_template, attach_menu: menu_built }
}

} // verus!
