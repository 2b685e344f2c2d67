//! The application menu: the items that the shell adds to whatever menu the
//! host provides, and the plan of edits that adds them.
//!
//! The host hands over a description of its top-level submenus. The plan adds
//! the shell's items to the File and Help submenus, building either where the
//! host has none. It adds nothing that is already there, so planning again on
//! a menu that was edited once yields no edit.

use crate::action::ShellAction;
use crate::text::same_text;
use vstd::prelude::*;

verus! {

/// An item that the shell adds to the application menu.
#[derive(Clone, Copy, Debug, PartialEq, Eq, Structural)]
pub enum MenuItemId {
    NewChat,
    NewWindow,
    OpenDocs,
}

impl MenuItemId {
    /// The identifier under which the host knows the item.
    pub open spec fn id_text(self) -> Seq<char> {
        match self {
            MenuItemId::NewChat => "new_chat"@,
            MenuItemId::NewWindow => "new_window"@,
            MenuItemId::OpenDocs => "open_docs"@,
        }
    }

    /// The shell action that a click on the item triggers.
    pub open spec fn bound_action(self) -> ShellAction {
        match self {
            MenuItemId::NewChat => ShellAction::NewChat,
            MenuItemId::NewWindow => ShellAction::OpenNewWindow,
            MenuItemId::OpenDocs => ShellAction::OpenDocs,
        }
    }

    /// The identifier under which the host knows the item.
    pub fn id(self) -> (id: &'static str)
        ensures
            id@ == self.id_text(),
    {
        match self {
            MenuItemId::NewChat => "new_chat",
            MenuItemId::NewWindow => "new_window",
            MenuItemId::OpenDocs => "open_docs",
        }
    }

    /// The text that the item shows.
    pub fn label(self) -> (label: &'static str)
        ensures
            label@ == match self {
                MenuItemId::NewChat => "New Chat"@,
                MenuItemId::NewWindow => "New Window"@,
                MenuItemId::OpenDocs => "Onyx Documentation"@,
            },
    {
        match self {
            MenuItemId::NewChat => "New Chat",
            MenuItemId::NewWindow => "New Window",
            MenuItemId::OpenDocs => "Onyx Documentation",
        }
    }

    /// The accelerator shown beside the item, if it has one.
    pub fn accelerator(self) -> (accelerator: Option<&'static str>)
        ensures
            match self {
                MenuItemId::NewChat => accelerator matches Some(a) && a@ == "CmdOrCtrl+N"@,
                MenuItemId::NewWindow => accelerator matches Some(a) && a@
                    == "CmdOrCtrl+Shift+N"@,
                MenuItemId::OpenDocs => accelerator is None,
            },
    {
        match self {
            MenuItemId::NewChat => Some("CmdOrCtrl+N"),
            MenuItemId::NewWindow => Some("CmdOrCtrl+Shift+N"),
            MenuItemId::OpenDocs => None,
        }
    }

    /// The shell action that a click on the item triggers.
    pub fn action(self) -> (action: ShellAction)
        ensures
            action == self.bound_action(),
    {
        match self {
            MenuItemId::NewChat => ShellAction::NewChat,
            MenuItemId::NewWindow => ShellAction::OpenNewWindow,
            MenuItemId::OpenDocs => ShellAction::OpenDocs,
        }
    }

    /// The item that the host knows under `id`, if the shell added one.
    pub fn from_id(id: &str) -> (item: Option<MenuItemId>)
        ensures
            item == menu_item_of(id@),
    {
        if same_text(id, "new_chat") {
            Some(MenuItemId::NewChat)
        } else if same_text(id, "new_window") {
            Some(MenuItemId::NewWindow)
        } else if same_text(id, "open_docs") {
            Some(MenuItemId::OpenDocs)
        } else {
            None
        }
    }
}

/// The item whose identifier is `id`.
pub open spec fn menu_item_of(id: Seq<char>) -> Option<MenuItemId> {
    if id == "new_chat"@ {
        Some(MenuItemId::NewChat)
    } else if id == "new_window"@ {
        Some(MenuItemId::NewWindow)
    } else if id == "open_docs"@ {
        Some(MenuItemId::OpenDocs)
    } else {
        None
    }
}

/// Each item is found again under its own identifier, and an identifier names
/// at most the item that carries it.
pub proof fn lemma_menu_ids(item: MenuItemId, id: Seq<char>)
    ensures
        menu_item_of(item.id_text()) == Some(item),
        menu_item_of(id) == Some(item) <==> id == item.id_text(),
{
    reveal_strlit("new_chat");
    reveal_strlit("new_window");
    reveal_strlit("open_docs");
    assert("new_chat"@.len() == 8);
    assert("new_window"@.len() == 10);
    assert("open_docs"@.len() == 9);
}

/// The title of the File submenu.
pub fn file_menu_title() -> (title: &'static str)
    ensures
        title@ == "File"@,
{
    "File"
}

/// The title of the Help submenu.
pub fn help_menu_title() -> (title: &'static str)
    ensures
        title@ == "Help"@,
{
    "Help"
}

/// One top-level submenu of the host's menu, as far as the plan reads it.
#[derive(Clone, Debug)]
pub struct HostSubmenu {
    pub id: String,
    /// The title, where the host could tell it.
    pub text: Option<String>,
    /// The identifiers of the items in the submenu, in order.
    pub items: Vec<String>,
}

/// What a `HostSubmenu` holds.
pub struct HostSubmenuView {
    pub id: Seq<char>,
    pub text: Option<Seq<char>>,
    pub items: Seq<Seq<char>>,
}

impl View for HostSubmenu {
    type V = HostSubmenuView;

    open spec fn view(&self) -> HostSubmenuView {
        HostSubmenuView {
            id: self.id@,
            text: match self.text {
                Some(t) => Some(t@),
                None => None,
            },
            items: self.items.deep_view(),
        }
    }
}

/// What a list of host submenus holds.
pub open spec fn host_view(host: Seq<HostSubmenu>) -> Seq<HostSubmenuView> {
    Seq::new(host.len(), |i: int| host[i]@)
}

/// One step of the plan. A position counts the host's submenus as they were
/// handed in.
#[derive(Clone, Copy, Debug, PartialEq, Eq, Structural)]
pub enum MenuEdit {
    /// Add `item` at the end of the host's submenu at position `submenu`.
    AppendItem { submenu: usize, item: MenuItemId },
    /// Build the File submenu and put it in front of the host's submenus.
    PrependFileSubmenu,
    /// Build the Help submenu and put it behind the host's submenus.
    AppendHelpSubmenu,
}

/// An entry of a submenu that the shell builds.
#[derive(Clone, Copy, Debug, PartialEq, Eq, Structural)]
pub enum MenuEntry {
    /// One of the shell's own items.
    Item(MenuItemId),
    /// The system's item that closes the window.
    CloseWindow,
}

/// The entries of a File submenu that the shell builds.
pub open spec fn file_entries() -> Seq<MenuEntry> {
    seq![
        MenuEntry::Item(MenuItemId::NewChat),
        MenuEntry::Item(MenuItemId::NewWindow),
        MenuEntry::CloseWindow,
    ]
}

/// The entries of a Help submenu that the shell builds.
pub open spec fn help_entries() -> Seq<MenuEntry> {
    seq![MenuEntry::Item(MenuItemId::OpenDocs)]
}

/// The entries of a File submenu that the shell builds.
pub fn file_submenu_entries() -> (entries: Vec<MenuEntry>)
    ensures
        entries@ == file_entries(),
{
    let mut entries: Vec<MenuEntry> = Vec::new();
    entries.push(MenuEntry::Item(MenuItemId::NewChat));
    entries.push(MenuEntry::Item(MenuItemId::NewWindow));
    entries.push(MenuEntry::CloseWindow);
    assert(entries@ =~= file_entries());
    entries
}

/// The entries of a Help submenu that the shell builds.
pub fn help_submenu_entries() -> (entries: Vec<MenuEntry>)
    ensures
        entries@ == help_entries(),
{
    let mut entries: Vec<MenuEntry> = Vec::new();
    entries.push(MenuEntry::Item(MenuItemId::OpenDocs));
    assert(entries@ =~= help_entries());
    entries
}

/// The position of the first `true` in `flags`.
pub open spec fn first_true(flags: Seq<bool>) -> Option<int>
    decreases flags.len(),
{
    if flags.len() == 0 {
        None
    } else if flags[0] {
        Some(0)
    } else {
        match first_true(flags.drop_first()) {
            Some(i) => Some(i + 1),
            None => None,
        }
    }
}

/// Whether `i` is the position of the first `true` in `flags`.
pub open spec fn is_first_true(flags: Seq<bool>, i: int) -> bool {
    &&& 0 <= i < flags.len()
    &&& flags[i]
    &&& forall|k: int| 0 <= k < i ==> !flags[k]
}

/// `first_true` finds the first `true`, and finds none only where there is
/// none.
pub proof fn lemma_first_true(flags: Seq<bool>)
    ensures
        match first_true(flags) {
            Some(i) => is_first_true(flags, i),
            None => forall|k: int| 0 <= k < flags.len() ==> !flags[k],
        },
    decreases flags.len(),
{
    if flags.len() > 0 && !flags[0] {
        let rest = flags.drop_first();
        lemma_first_true(rest);
        match first_true(rest) {
            Some(i) => {
                assert(flags[i + 1] == rest[i]);
                assert forall|k: int| 0 <= k < i + 1 implies !flags[k] by {
                    if k > 0 {
                        assert(flags[k] == rest[k - 1]);
                    }
                }
            },
            None => {
                assert forall|k: int| 0 <= k < flags.len() implies !flags[k] by {
                    if k > 0 {
                        assert(flags[k] == rest[k - 1]);
                    }
                }
            },
        }
    }
}

/// The first `true` stands where `first_true` says, and nowhere else.
pub proof fn lemma_first_true_is(flags: Seq<bool>, i: int)
    requires
        is_first_true(flags, i),
    ensures
        first_true(flags) == Some(i),
{
    lemma_first_true(flags);
}

/// Whether a submenu is the File submenu: the one titled "File".
pub open spec fn is_file_menu(menu: HostSubmenuView) -> bool {
    menu.text == Some("File"@)
}

/// For each submenu, whether it is a File submenu.
pub open spec fn file_flags(host: Seq<HostSubmenuView>) -> Seq<bool> {
    Seq::new(host.len(), |i: int| is_file_menu(host[i]))
}

/// For each submenu, whether its identifier is `id`.
pub open spec fn id_flags(host: Seq<HostSubmenuView>, id: Seq<char>) -> Seq<bool> {
    Seq::new(host.len(), |i: int| host[i].id == id)
}

/// The edit that adds `item` to the submenu at `position`, unless the submenu
/// lists it already.
pub open spec fn item_edit(host: Seq<HostSubmenuView>, position: int, item: MenuItemId) -> Seq<
    MenuEdit,
> {
    if host[position].items.contains(item.id_text()) {
        Seq::empty()
    } else {
        seq![MenuEdit::AppendItem { submenu: position as usize, item }]
    }
}

/// The edits that bring the new-chat and new-window items into the menu.
pub open spec fn file_edits(host: Seq<HostSubmenuView>) -> Seq<MenuEdit> {
    match first_true(file_flags(host)) {
        Some(i) => item_edit(host, i, MenuItemId::NewChat) + item_edit(
            host,
            i,
            MenuItemId::NewWindow,
        ),
        None => seq![MenuEdit::PrependFileSubmenu],
    }
}

/// The edits that bring the documentation item into the menu.
pub open spec fn help_edits(host: Seq<HostSubmenuView>, help_id: Seq<char>) -> Seq<MenuEdit> {
    match first_true(id_flags(host, help_id)) {
        Some(j) => item_edit(host, j, MenuItemId::OpenDocs),
        None => seq![MenuEdit::AppendHelpSubmenu],
    }
}

/// The plan for a host menu: the File edits, then the Help edits.
pub open spec fn menu_edits(host: Seq<HostSubmenuView>, help_id: Seq<char>) -> Seq<MenuEdit> {
    file_edits(host) + help_edits(host, help_id)
}

fn find_file_submenu(host: &Vec<HostSubmenu>) -> (found: Option<usize>)
    ensures
        match found {
            Some(i) => i < host.len() && first_true(file_flags(host_view(host@))) == Some(
                i as int,
            ),
            None => first_true(file_flags(host_view(host@))) is None,
        },
{
    let ghost flags = file_flags(host_view(host@));
    let mut i: usize = 0;
    while i < host.len()
        invariant
            i <= host.len(),
            flags == file_flags(host_view(host@)),
            forall|k: int| 0 <= k < i ==> !flags[k],
        decreases host.len() - i,
    {
        let is_file = match &host[i].text {
            Some(text) => same_text(text.as_str(), file_menu_title()),
            None => false,
        };
        assert(is_file == flags[i as int]);
        if is_file {
            proof {
                lemma_first_true_is(flags, i as int);
            }
            return Some(i);
        }
        i += 1;
    }
    proof {
        lemma_first_true(flags);
    }
    None
}

fn find_submenu_by_id(host: &Vec<HostSubmenu>, id: &str) -> (found: Option<usize>)
    ensures
        match found {
            Some(i) => i < host.len() && first_true(id_flags(host_view(host@), id@)) == Some(
                i as int,
            ),
            None => first_true(id_flags(host_view(host@), id@)) is None,
        },
{
    let ghost flags = id_flags(host_view(host@), id@);
    let mut i: usize = 0;
    while i < host.len()
        invariant
            i <= host.len(),
            flags == id_flags(host_view(host@), id@),
            forall|k: int| 0 <= k < i ==> !flags[k],
        decreases host.len() - i,
    {
        let same = same_text(host[i].id.as_str(), id);
        assert(same == flags[i as int]);
        if same {
            proof {
                lemma_first_true_is(flags, i as int);
            }
            return Some(i);
        }
        i += 1;
    }
    proof {
        lemma_first_true(flags);
    }
    None
}

fn lists_item(menu: &HostSubmenu, item: MenuItemId) -> (listed: bool)
    ensures
        listed == menu@.items.contains(item.id_text()),
{
    let id = item.id();
    let mut i: usize = 0;
    while i < menu.items.len()
        invariant
            i <= menu.items.len(),
            id@ == item.id_text(),
            forall|k: int| 0 <= k < i ==> menu@.items[k] != id@,
        decreases menu.items.len() - i,
    {
        if same_text(menu.items[i].as_str(), id) {
            assert(menu@.items[i as int] == id@);
            return true;
        }
        i += 1;
    }
    false
}

fn push_item_edit(
    edits: &mut Vec<MenuEdit>,
    host: &Vec<HostSubmenu>,
    position: usize,
    item: MenuItemId,
)
    requires
        position < host.len(),
    ensures
        final(edits)@ == old(edits)@ + item_edit(host_view(host@), position as int, item),
{
    if !lists_item(&host[position], item) {
        edits.push(MenuEdit::AppendItem { submenu: position, item });
    }
    assert(edits@ =~= old(edits)@ + item_edit(host_view(host@), position as int, item));
}

/// The edits that bring the shell's items into the host's menu.
///
/// The new-chat and new-window items go to the end of the first submenu titled
/// "File"; where the host has none, a File submenu is built and put first. The
/// documentation item goes to the end of the first submenu whose identifier is
/// `help_id`; where the host has none, a Help submenu is built and put last.
/// An item that its submenu lists already is not added again.
pub fn setup_app_menu(host: &Vec<HostSubmenu>, help_id: &str) -> (edits: Vec<MenuEdit>)
    ensures
        edits@ == menu_edits(host_view(host@), help_id@),
{
    let mut edits: Vec<MenuEdit> = Vec::new();
    match find_file_submenu(host) {
        Some(i) => {
            push_item_edit(&mut edits, host, i, MenuItemId::NewChat);
            push_item_edit(&mut edits, host, i, MenuItemId::NewWindow);
        },
        None => {
            edits.push(MenuEdit::PrependFileSubmenu);
        },
    }
    assert(edits@ =~= file_edits(host_view(host@)));
    match find_submenu_by_id(host, help_id) {
        Some(j) => {
            push_item_edit(&mut edits, host, j, MenuItemId::OpenDocs);
        },
        None => {
            edits.push(MenuEdit::AppendHelpSubmenu);
        },
    }
    assert(edits@ =~= menu_edits(host_view(host@), help_id@));
    edits
}

/// The host's submenus after one edit, as far as it adds an item. The edits
/// that build a submenu leave the host's own submenus as they are.
pub open spec fn apply_item_edit(host: Seq<HostSubmenuView>, edit: MenuEdit) -> Seq<
    HostSubmenuView,
> {
    match edit {
        MenuEdit::AppendItem { submenu, item } => if submenu < host.len() {
            host.update(
                submenu as int,
                HostSubmenuView {
                    items: host[submenu as int].items.push(item.id_text()),
                    ..host[submenu as int]
                },
            )
        } else {
            host
        },
        _ => host,
    }
}

/// The host's submenus after the items of `edits` have been added, in order.
pub open spec fn apply_item_edits(host: Seq<HostSubmenuView>, edits: Seq<MenuEdit>) -> Seq<
    HostSubmenuView,
>
    decreases edits.len(),
{
    if edits.len() == 0 {
        host
    } else {
        apply_item_edits(apply_item_edit(host, edits[0]), edits.drop_first())
    }
}

/// The File submenu as the shell builds it. The host chooses its identifier
/// and that of the item that closes the window.
pub open spec fn built_file_menu(file_id: Seq<char>, close_id: Seq<char>) -> HostSubmenuView {
    HostSubmenuView {
        id: file_id,
        text: Some("File"@),
        items: seq![MenuItemId::NewChat.id_text(), MenuItemId::NewWindow.id_text(), close_id],
    }
}

/// The Help submenu as the shell builds it.
pub open spec fn built_help_menu(help_id: Seq<char>) -> HostSubmenuView {
    HostSubmenuView {
        id: help_id,
        text: Some("Help"@),
        items: seq![MenuItemId::OpenDocs.id_text()],
    }
}

/// The menu after `edits` have been carried out on the host's submenus.
pub open spec fn apply_edits(
    host: Seq<HostSubmenuView>,
    edits: Seq<MenuEdit>,
    help_id: Seq<char>,
    file_id: Seq<char>,
    close_id: Seq<char>,
) -> Seq<HostSubmenuView> {
    let front = if edits.contains(MenuEdit::PrependFileSubmenu) {
        seq![built_file_menu(file_id, close_id)]
    } else {
        Seq::empty()
    };
    let back = if edits.contains(MenuEdit::AppendHelpSubmenu) {
        seq![built_help_menu(help_id)]
    } else {
        Seq::empty()
    };
    front + apply_item_edits(host, edits) + back
}

/// Whether `after` holds the submenus of `before` with nothing but items
/// added.
pub open spec fn only_items_added(before: Seq<HostSubmenuView>, after: Seq<HostSubmenuView>) -> bool {
    &&& after.len() == before.len()
    &&& forall|k: int|
        0 <= k < before.len() ==> (#[trigger] after[k]).id == before[k].id && after[k].text
            == before[k].text
    &&& forall|k: int, id: Seq<char>|
        0 <= k < before.len() && before[k].items.contains(id) ==> #[trigger] after[k].items.contains(
            id,
        )
}

proof fn lemma_apply_items_concat(host: Seq<HostSubmenuView>, a: Seq<MenuEdit>, b: Seq<MenuEdit>)
    ensures
        apply_item_edits(host, a + b) == apply_item_edits(apply_item_edits(host, a), b),
    decreases a.len(),
{
    if a.len() == 0 {
        assert(a + b =~= b);
    } else {
        assert((a + b).drop_first() =~= a.drop_first() + b);
        lemma_apply_items_concat(apply_item_edit(host, a[0]), a.drop_first(), b);
    }
}

proof fn lemma_item_edit_applied(host: Seq<HostSubmenuView>, position: int, item: MenuItemId)
    requires
        0 <= position < host.len() <= usize::MAX,
    ensures
        only_items_added(host, apply_item_edits(host, item_edit(host, position, item))),
        apply_item_edits(host, item_edit(host, position, item))[position].items.contains(
            item.id_text(),
        ),
{
    let edits = item_edit(host, position, item);
    let after = apply_item_edits(host, edits);
    if host[position].items.contains(item.id_text()) {
        assert(after == host);
    } else {
        let edit = MenuEdit::AppendItem { submenu: position as usize, item };
        assert(edits[0] == edit);
        assert(edits.drop_first() =~= Seq::<MenuEdit>::empty());
        let one = apply_item_edit(host, edit);
        assert(apply_item_edits(one, edits.drop_first()) == one);
        assert(after == one);
        let grown = host[position].items.push(item.id_text());
        assert(grown[host[position].items.len() as int] == item.id_text());
        assert forall|k: int, id: Seq<char>|
            0 <= k < host.len() && host[k].items.contains(id) implies #[trigger] after[k].items.contains(
            id,
        ) by {
            if k == position {
                let w = choose|w: int| 0 <= w < host[k].items.len() && host[k].items[w] == id;
                assert(grown[w] == id);
            }
        }
    }
}

proof fn lemma_only_items_added_trans(
    a: Seq<HostSubmenuView>,
    b: Seq<HostSubmenuView>,
    c: Seq<HostSubmenuView>,
)
    requires
        only_items_added(a, b),
        only_items_added(b, c),
    ensures
        only_items_added(a, c),
{
    assert forall|k: int, id: Seq<char>|
        0 <= k < a.len() && a[k].items.contains(id) implies #[trigger] c[k].items.contains(id) by {
        assert(b[k].items.contains(id));
    }
    assert forall|k: int| 0 <= k < a.len() implies (#[trigger] c[k]).id == a[k].id && c[k].text
        == a[k].text by {
        assert(b[k].id == a[k].id);
    }
}

proof fn lemma_flags_kept(before: Seq<HostSubmenuView>, after: Seq<HostSubmenuView>, id: Seq<char>)
    requires
        only_items_added(before, after),
    ensures
        file_flags(after) == file_flags(before),
        id_flags(after, id) == id_flags(before, id),
{
    assert forall|k: int| 0 <= k < before.len() implies file_flags(after)[k] == file_flags(
        before,
    )[k] by {
        assert(after[k].text == before[k].text);
    }
    assert forall|k: int| 0 <= k < before.len() implies id_flags(after, id)[k] == id_flags(
        before,
        id,
    )[k] by {
        assert(after[k].id == before[k].id);
    }
    assert(file_flags(after) =~= file_flags(before));
    assert(id_flags(after, id) =~= id_flags(before, id));
}

/// What carrying out the plan does to the host's own submenus: nothing but
/// items are added, and afterwards the File submenu lists the new-chat and
/// new-window items and the Help submenu the documentation item, wherever the
/// host has these submenus.
proof fn lemma_plan_on_host(host: Seq<HostSubmenuView>, help_id: Seq<char>)
    requires
        host.len() <= usize::MAX,
    ensures
        only_items_added(host, apply_item_edits(host, menu_edits(host, help_id))),
        first_true(file_flags(host)) matches Some(i) ==> {
            let after = apply_item_edits(host, menu_edits(host, help_id));
            after[i].items.contains(MenuItemId::NewChat.id_text()) && after[i].items.contains(
                MenuItemId::NewWindow.id_text(),
            )
        },
        first_true(id_flags(host, help_id)) matches Some(j) ==> apply_item_edits(
            host,
            menu_edits(host, help_id),
        )[j].items.contains(MenuItemId::OpenDocs.id_text()),
{
    lemma_first_true(file_flags(host));
    lemma_first_true(id_flags(host, help_id));
    let fe = file_edits(host);
    let he = help_edits(host, help_id);
    lemma_apply_items_concat(host, fe, he);
    let h1 = apply_item_edits(host, fe);
    let h2 = apply_item_edits(h1, he);
    match first_true(file_flags(host)) {
        Some(i) => {
            let a = item_edit(host, i, MenuItemId::NewChat);
            let b = item_edit(host, i, MenuItemId::NewWindow);
            lemma_apply_items_concat(host, a, b);
            let mid = apply_item_edits(host, a);
            lemma_item_edit_applied(host, i, MenuItemId::NewChat);
            // The second edit was planned on the host, and is carried out on `mid`.
            if host[i].items.contains(MenuItemId::NewWindow.id_text()) {
                assert(apply_item_edits(mid, b) == mid);
                assert(mid[i].items.contains(MenuItemId::NewWindow.id_text()));
                assert(only_items_added(host, h1));
            } else {
                let edit = MenuEdit::AppendItem { submenu: i as usize, item: MenuItemId::NewWindow };
                assert(b[0] == edit);
                assert(b.drop_first() =~= Seq::<MenuEdit>::empty());
                let one = apply_item_edit(mid, edit);
                assert(apply_item_edits(one, b.drop_first()) == one);
                assert(h1 == one);
                let grown = mid[i].items.push(MenuItemId::NewWindow.id_text());
                assert(grown[mid[i].items.len() as int] == MenuItemId::NewWindow.id_text());
                assert forall|k: int, id: Seq<char>|
                    0 <= k < mid.len() && mid[k].items.contains(id) implies #[trigger] h1[k].items.contains(
                    id,
                ) by {
                    if k == i {
                        let w = choose|w: int| 0 <= w < mid[k].items.len() && mid[k].items[w] == id;
                        assert(grown[w] == id);
                    }
                }
                assert(only_items_added(mid, h1));
                lemma_only_items_added_trans(host, mid, h1);
            }
            assert(h1[i].items.contains(MenuItemId::NewChat.id_text()));
            assert(h1[i].items.contains(MenuItemId::NewWindow.id_text()));
        },
        None => {
            assert(fe[0] == MenuEdit::PrependFileSubmenu);
            assert(fe.drop_first() =~= Seq::<MenuEdit>::empty());
            assert(apply_item_edits(host, fe.drop_first()) == host);
            assert(h1 == host);
        },
    }
    assert(only_items_added(host, h1));
    match first_true(id_flags(host, help_id)) {
        Some(j) => {
            let c = item_edit(host, j, MenuItemId::OpenDocs);
            if host[j].items.contains(MenuItemId::OpenDocs.id_text()) {
                assert(h2 == h1);
                assert(h1[j].items.contains(MenuItemId::OpenDocs.id_text()));
            } else {
                let edit = MenuEdit::AppendItem { submenu: j as usize, item: MenuItemId::OpenDocs };
                assert(c[0] == edit);
                assert(c.drop_first() =~= Seq::<MenuEdit>::empty());
                let one = apply_item_edit(h1, edit);
                assert(apply_item_edits(one, c.drop_first()) == one);
                assert(h2 == one);
                let grown = h1[j].items.push(MenuItemId::OpenDocs.id_text());
                assert(grown[h1[j].items.len() as int] == MenuItemId::OpenDocs.id_text());
                assert forall|k: int, id: Seq<char>|
                    0 <= k < h1.len() && h1[k].items.contains(id) implies #[trigger] h2[k].items.contains(
                    id,
                ) by {
                    if k == j {
                        let w = choose|w: int| 0 <= w < h1[k].items.len() && h1[k].items[w] == id;
                        assert(grown[w] == id);
                    }
                }
            }
            assert(only_items_added(h1, h2));
        },
        None => {
            assert(he[0] == MenuEdit::AppendHelpSubmenu);
            assert(he.drop_first() =~= Seq::<MenuEdit>::empty());
            assert(apply_item_edits(h1, he.drop_first()) == h1);
            assert(h2 == h1);
        },
    }
    lemma_only_items_added_trans(host, h1, h2);
    if let Some(i) = first_true(file_flags(host)) {
        assert(h2[i].items.contains(MenuItemId::NewChat.id_text()));
        assert(h2[i].items.contains(MenuItemId::NewWindow.id_text()));
    }
}

/// Planning again on a menu on which the plan was carried out yields no edit:
/// the shell's items are never added twice.
///
/// The host gives the File submenu that it builds an identifier of its own,
/// other than the one that marks the Help submenu.
pub proof fn lemma_menu_plan_idempotent(
    host: Seq<HostSubmenuView>,
    help_id: Seq<char>,
    file_id: Seq<char>,
    close_id: Seq<char>,
)
    requires
        host.len() < usize::MAX - 1,
        file_id != help_id,
    ensures
        menu_edits(
            apply_edits(host, menu_edits(host, help_id), help_id, file_id, close_id),
            help_id,
        ) == Seq::<MenuEdit>::empty(),
{
    reveal_strlit("File");
    reveal_strlit("Help");
    assert("File"@[0] != "Help"@[0]);
    let edits = menu_edits(host, help_id);
    let body = apply_item_edits(host, edits);
    let after = apply_edits(host, edits, help_id, file_id, close_id);
    lemma_plan_on_host(host, help_id);
    lemma_flags_kept(host, body, help_id);
    lemma_first_true(file_flags(host));
    lemma_first_true(id_flags(host, help_id));
    let fe = file_edits(host);
    let he = help_edits(host, help_id);
    let file_built = first_true(file_flags(host)) is None;
    let help_built = first_true(id_flags(host, help_id)) is None;
    // Which submenus the plan builds.
    assert(edits.contains(MenuEdit::PrependFileSubmenu) <==> file_built) by {
        if file_built {
            assert(edits[0] == MenuEdit::PrependFileSubmenu);
        }
    }
    assert(edits.contains(MenuEdit::AppendHelpSubmenu) <==> help_built) by {
        if help_built {
            assert(edits[fe.len() as int] == MenuEdit::AppendHelpSubmenu);
        }
    }
    let shift: int = if file_built {
        1
    } else {
        0
    };
    assert(forall|k: int| 0 <= k < body.len() ==> after[k + shift] == body[k]);
    // The File submenu of the edited menu lists both items.
    let file_at: int = match first_true(file_flags(host)) {
        Some(i) => i,
        None => 0,
    };
    assert(is_first_true(file_flags(after), file_at)) by {
        if !file_built {
            assert(after[file_at] == body[file_at]);
            assert forall|k: int| 0 <= k < file_at implies !file_flags(after)[k] by {
                assert(after[k] == body[k]);
                assert(file_flags(body)[k] == file_flags(host)[k]);
            }
            assert(file_flags(body)[file_at]);
        }
    }
    lemma_first_true_is(file_flags(after), file_at);
    assert(after[file_at].items.contains(MenuItemId::NewChat.id_text())
        && after[file_at].items.contains(MenuItemId::NewWindow.id_text())) by {
        if file_built {
            assert(after[0].items[0] == MenuItemId::NewChat.id_text());
            assert(after[0].items[1] == MenuItemId::NewWindow.id_text());
        }
    }
    assert(file_edits(after) =~= Seq::<MenuEdit>::empty());
    // The Help submenu of the edited menu lists the documentation item.
    let help_at: int = match first_true(id_flags(host, help_id)) {
        Some(j) => j + shift,
        None => body.len() + shift,
    };
    assert(is_first_true(id_flags(after, help_id), help_at)) by {
        assert forall|k: int| 0 <= k < help_at implies !id_flags(after, help_id)[k] by {
            if k >= shift {
                assert(after[k] == body[k - shift]);
                assert(id_flags(body, help_id)[k - shift] == id_flags(host, help_id)[k - shift]);
            }
        }
        if !help_built {
            assert(after[help_at] == body[help_at - shift]);
            assert(id_flags(body, help_id)[help_at - shift]);
        }
    }
    lemma_first_true_is(id_flags(after, help_id), help_at);
    assert(after[help_at].items.contains(MenuItemId::OpenDocs.id_text())) by {
        if help_built {
            assert(after[help_at].items[0] == MenuItemId::OpenDocs.id_text());
        } else {
            assert(after[help_at] == body[help_at - shift]);
        }
    }
    assert(help_edits(after, help_id) =~= Seq::<MenuEdit>::empty());
}

} // verus!
