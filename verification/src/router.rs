//! The router: the one table that says which shell actions follow from a
//! fired shortcut, a clicked menu item or a clicked tray item.
//!
//! What the shell registers with the host, and what the router dispatches,
//! are read from the same tables. So every entry point finds its actions, and
//! nothing else finds any.

use crate::action::ShellAction;
use crate::menu::{file_entries, help_entries, menu_item_of, MenuEntry, MenuItemId};
use crate::menu::lemma_menu_ids;
use crate::platform::Platform;
use crate::shortcuts::{binding_table, bound_action, command_chord, command_shift_chord};
use crate::shortcuts::{dispatch_shortcut, is_registered, Binding, Chord, Key};
use crate::shortcuts::{lemma_binding_table, lemma_dispatch_matches_registration};
use crate::tray::{handle_tray_menu_event, tray_click_actions, tray_entries, tray_item_of};
use crate::tray::{lemma_tray_ids, TrayEntry, TrayItemId};
use vstd::prelude::*;

verus! {

/// Something the user did outside the page.
#[derive(Clone, Debug)]
pub enum ShellEvent {
    /// A registered chord was pressed.
    ShortcutFired(Chord),
    /// An item of the application menu was clicked; the text is its
    /// identifier.
    MenuItemClicked(String),
    /// An item of the tray menu was clicked; the text is its identifier.
    TrayItemClicked(String),
    /// The tray icon itself was clicked.
    TrayIconClicked,
}

/// What a `ShellEvent` holds.
pub enum ShellEventView {
    ShortcutFired(Chord),
    MenuItemClicked(Seq<char>),
    TrayItemClicked(Seq<char>),
    TrayIconClicked,
}

impl View for ShellEvent {
    type V = ShellEventView;

    open spec fn view(&self) -> ShellEventView {
        match self {
            ShellEvent::ShortcutFired(chord) => ShellEventView::ShortcutFired(*chord),
            ShellEvent::MenuItemClicked(id) => ShellEventView::MenuItemClicked(id@),
            ShellEvent::TrayItemClicked(id) => ShellEventView::TrayItemClicked(id@),
            ShellEvent::TrayIconClicked => ShellEventView::TrayIconClicked,
        }
    }
}

/// The shell actions that follow from `event` on `platform`, in order: the
/// dispatch table.
pub open spec fn routed_actions(event: ShellEventView, platform: Platform) -> Seq<ShellAction> {
    match event {
        ShellEventView::ShortcutFired(chord) => match bound_action(binding_table(platform), chord) {
            Some(action) => seq![action],
            None => Seq::empty(),
        },
        ShellEventView::MenuItemClicked(id) => match menu_item_of(id) {
            Some(item) => seq![item.bound_action()],
            None => Seq::empty(),
        },
        ShellEventView::TrayItemClicked(id) => tray_click_actions(id),
        ShellEventView::TrayIconClicked => seq![ShellAction::FocusMain],
    }
}

/// Whether the shell offers `event` to the user on `platform`: the chord is
/// in the shortcut table, the item is one that the shell puts into the
/// application menu, the item is a clickable item of the tray menu, or the
/// event is a click on the tray icon.
pub open spec fn is_entry_point(event: ShellEventView, platform: Platform) -> bool {
    match event {
        ShellEventView::ShortcutFired(chord) => is_registered(binding_table(platform), chord),
        ShellEventView::MenuItemClicked(id) => exists|item: MenuItemId|
            id == #[trigger] item.id_text() && (file_entries().contains(MenuEntry::Item(item))
                || help_entries().contains(MenuEntry::Item(item))),
        ShellEventView::TrayItemClicked(id) => exists|item: TrayItemId|
            id == #[trigger] item.id_text() && tray_entries().contains(TrayEntry::Item(item)),
        ShellEventView::TrayIconClicked => true,
    }
}

/// Whether some entry point of `platform` triggers `action`.
pub open spec fn is_triggered(action: ShellAction, platform: Platform) -> bool {
    exists|event: ShellEventView|
        is_entry_point(event, platform) && #[trigger] routed_actions(event, platform).contains(
            action,
        )
}

/// The shell actions that follow from `event` on `platform`, in order. An
/// event that the shell does not offer yields none.
pub fn route(event: &ShellEvent, platform: Platform) -> (actions: Vec<ShellAction>)
    ensures
        actions@ == routed_actions(event@, platform),
{
    match event {
        ShellEvent::ShortcutFired(chord) => {
            let mut actions: Vec<ShellAction> = Vec::new();
            if let Some(action) = dispatch_shortcut(platform, *chord) {
                actions.push(action);
            }
            assert(actions@ =~= routed_actions(event@, platform));
            actions
        },
        ShellEvent::MenuItemClicked(id) => {
            let mut actions: Vec<ShellAction> = Vec::new();
            if let Some(item) = MenuItemId::from_id(id.as_str()) {
                actions.push(item.action());
            }
            assert(actions@ =~= routed_actions(event@, platform));
            actions
        },
        ShellEvent::TrayItemClicked(id) => handle_tray_menu_event(id.as_str()),
        ShellEvent::TrayIconClicked => {
            let mut actions: Vec<ShellAction> = Vec::new();
            actions.push(ShellAction::FocusMain);
            assert(actions@ =~= routed_actions(event@, platform));
            actions
        },
    }
}

/// The entry points and the dispatch table are the same set: an event that
/// the shell offers triggers an action, and an event that triggers an action
/// is one that the shell offers. A shortcut or a menu item triggers exactly
/// one action; a tray item triggers one or two.
pub proof fn lemma_entry_points_are_dispatched(event: ShellEventView, platform: Platform)
    ensures
        is_entry_point(event, platform) <==> routed_actions(event, platform).len() > 0,
        routed_actions(event, platform).len() <= 2,
        !(event is TrayItemClicked) ==> routed_actions(event, platform).len() <= 1,
{
    match event {
        ShellEventView::ShortcutFired(chord) => {
            lemma_dispatch_matches_registration(binding_table(platform), chord);
        },
        ShellEventView::MenuItemClicked(id) => {
            if let Some(item) = menu_item_of(id) {
                lemma_menu_ids(item, id);
                assert(file_entries()[0] == MenuEntry::Item(MenuItemId::NewChat));
                assert(file_entries()[1] == MenuEntry::Item(MenuItemId::NewWindow));
                assert(help_entries()[0] == MenuEntry::Item(MenuItemId::OpenDocs));
            }
            assert forall|item: MenuItemId| id == #[trigger] item.id_text() implies menu_item_of(id)
                is Some by {
                lemma_menu_ids(item, id);
            }
        },
        ShellEventView::TrayItemClicked(id) => {
            if let Some(item) = tray_item_of(id) {
                lemma_tray_ids(item, id);
                assert(tray_entries()[0] == TrayEntry::Item(TrayItemId::OpenApp));
                assert(tray_entries()[1] == TrayEntry::Item(TrayItemId::OpenChat));
                assert(tray_entries()[5] == TrayEntry::Item(TrayItemId::Quit));
            }
            assert forall|item: TrayItemId|
                id == #[trigger] item.id_text() && tray_entries().contains(
                    TrayEntry::Item(item),
                ) implies tray_click_actions(id).len() > 0 by {
                lemma_tray_ids(item, id);
            }
        },
        ShellEventView::TrayIconClicked => {},
    }
}

/// An event that triggers `action` wherever the action is triggered at all.
pub open spec fn witness_event(action: ShellAction) -> ShellEventView {
    match action {
        ShellAction::OpenDocs => ShellEventView::MenuItemClicked(MenuItemId::OpenDocs.id_text()),
        ShellAction::Quit => ShellEventView::TrayItemClicked(TrayItemId::Quit.id_text()),
        ShellAction::NewChat => ShellEventView::ShortcutFired(command_chord(Key::KeyN)),
        ShellAction::ReloadMain => ShellEventView::ShortcutFired(command_chord(Key::KeyR)),
        ShellAction::HistoryBack => ShellEventView::ShortcutFired(command_chord(Key::BracketLeft)),
        ShellAction::HistoryForward => ShellEventView::ShortcutFired(
            command_chord(Key::BracketRight),
        ),
        ShellAction::OpenNewWindow => ShellEventView::ShortcutFired(command_shift_chord(Key::KeyN)),
        ShellAction::FocusMain => ShellEventView::ShortcutFired(command_shift_chord(Key::Space)),
        _ => ShellEventView::ShortcutFired(command_chord(Key::Comma)),
    }
}

/// Which actions the entry points reach. On every platform they trigger each
/// action but two: none leads to the settings view, and none reloads the page
/// where the system keeps the reload chord for itself.
pub proof fn lemma_triggered_actions(action: ShellAction, platform: Platform)
    ensures
        is_triggered(action, platform) <==> action != ShellAction::NavigateSettings && !(action
            == ShellAction::ReloadMain && platform.reload_chord_reserved()),
{
    let table = binding_table(platform);
    lemma_binding_table(platform);
    let reachable = action != ShellAction::NavigateSettings && !(action == ShellAction::ReloadMain
        && platform.reload_chord_reserved());
    if reachable {
        let event = witness_event(action);
        match action {
            ShellAction::OpenDocs => {
                lemma_menu_ids(MenuItemId::OpenDocs, MenuItemId::OpenDocs.id_text());
                assert(help_entries()[0] == MenuEntry::Item(MenuItemId::OpenDocs));
                assert(routed_actions(event, platform)[0] == action);
            },
            ShellAction::Quit => {
                lemma_tray_ids(TrayItemId::Quit, TrayItemId::Quit.id_text());
                assert(tray_entries()[5] == TrayEntry::Item(TrayItemId::Quit));
                assert(routed_actions(event, platform)[0] == action);
            },
            _ => {
                let shift: int = if platform.reload_chord_reserved() {
                    0
                } else {
                    1
                };
                let i: int = match action {
                    ShellAction::NewChat => 0,
                    ShellAction::ReloadMain => 1,
                    ShellAction::HistoryBack => 1 + shift,
                    ShellAction::HistoryForward => 2 + shift,
                    ShellAction::OpenNewWindow => 3 + shift,
                    ShellAction::FocusMain => 4 + shift,
                    _ => 5 + shift,
                };
                assert(table[i].action == action);
                assert(table[i].chord == event->ShortcutFired_0);
                assert(bound_action(table, table[i].chord) == Some(action));
                assert(routed_actions(event, platform)[0] == action);
            },
        }
        assert(is_entry_point(event, platform) && routed_actions(event, platform).contains(action));
    }
    if is_triggered(action, platform) {
        let event = choose|event: ShellEventView|
            is_entry_point(event, platform) && #[trigger] routed_actions(event, platform).contains(
                action,
            );
        let routed = routed_actions(event, platform);
        let k = choose|k: int| 0 <= k < routed.len() && routed[k] == action;
        match event {
            ShellEventView::ShortcutFired(chord) => {
                lemma_dispatch_matches_registration(table, chord);
                let row = Binding { chord, action };
                let i = choose|i: int| 0 <= i < table.len() && table[i] == row;
                assert(table[i].action == action);
            },
            _ => {},
        }
    }
}

} // verus!
