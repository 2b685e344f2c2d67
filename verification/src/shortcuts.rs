//! Global keyboard shortcuts: the table that binds each chord to a shell
//! action, and the lookup that dispatches a fired chord.
//!
//! Registration and dispatch read the same table, so a chord that was
//! registered always finds its action and no other chord finds any.

use crate::action::ShellAction;
use crate::platform::Platform;
use vstd::prelude::*;

verus! {

/// The keys that the shell binds.
#[derive(Clone, Copy, Debug, PartialEq, Eq, Structural)]
pub enum Key {
    KeyN,
    KeyR,
    BracketLeft,
    BracketRight,
    Space,
    Comma,
}

/// A key together with the modifiers held down with it.
#[derive(Clone, Copy, Debug, PartialEq, Eq, Structural)]
pub struct Chord {
    pub alt: bool,
    pub control: bool,
    pub shift: bool,
    /// The command key on macOS, the super key elsewhere.
    pub command: bool,
    pub key: Key,
}

/// One row of the shortcut table.
#[derive(Clone, Copy, Debug, PartialEq, Eq, Structural)]
pub struct Binding {
    pub chord: Chord,
    pub action: ShellAction,
}

/// The chord made of the command key and `key`.
pub open spec fn command_chord(key: Key) -> Chord {
    Chord { alt: false, control: false, shift: false, command: true, key }
}

/// The chord made of the command key, shift and `key`.
pub open spec fn command_shift_chord(key: Key) -> Chord {
    Chord { alt: false, control: false, shift: true, command: true, key }
}

/// The row that binds the reload chord.
pub open spec fn reload_binding() -> Binding {
    Binding { chord: command_chord(Key::KeyR), action: ShellAction::ReloadMain }
}

/// The rows that every platform registers, in registration order.
pub open spec fn common_bindings() -> Seq<Binding> {
    seq![
        Binding { chord: command_chord(Key::KeyN), action: ShellAction::NewChat },
        Binding { chord: command_chord(Key::BracketLeft), action: ShellAction::HistoryBack },
        Binding { chord: command_chord(Key::BracketRight), action: ShellAction::HistoryForward },
        Binding { chord: command_shift_chord(Key::KeyN), action: ShellAction::OpenNewWindow },
        Binding { chord: command_shift_chord(Key::Space), action: ShellAction::FocusMain },
        Binding { chord: command_chord(Key::Comma), action: ShellAction::OpenConfigFile },
    ]
}

/// The shortcut table of a platform: the common rows, with the reload row in
/// second place unless the system keeps that chord for itself.
pub open spec fn binding_table(platform: Platform) -> Seq<Binding> {
    if platform.reload_chord_reserved() {
        common_bindings()
    } else {
        common_bindings().insert(1, reload_binding())
    }
}

/// The action of the first row of `table` whose chord is `chord`.
pub open spec fn bound_action(table: Seq<Binding>, chord: Chord) -> Option<ShellAction>
    decreases table.len(),
{
    if table.len() == 0 {
        None
    } else if table[0].chord == chord {
        Some(table[0].action)
    } else {
        bound_action(table.drop_first(), chord)
    }
}

/// Whether some row of `table` carries `chord`.
pub open spec fn is_registered(table: Seq<Binding>, chord: Chord) -> bool {
    exists|i: int| 0 <= i < table.len() && #[trigger] table[i].chord == chord
}

/// Whether no two rows of `table` carry the same chord.
pub open spec fn chords_distinct(table: Seq<Binding>) -> bool {
    forall|i: int, j: int|
        0 <= i < j < table.len() ==> #[trigger] table[i].chord != #[trigger] table[j].chord
}

fn chord_of(shift: bool, key: Key) -> (chord: Chord)
    ensures
        chord == if shift {
            command_shift_chord(key)
        } else {
            command_chord(key)
        },
{
    Chord { alt: false, control: false, shift, command: true, key }
}

/// The chords to register on `platform`, each with the action it triggers.
pub fn setup_shortcuts(platform: Platform) -> (table: Vec<Binding>)
    ensures
        table@ == binding_table(platform),
{
    let mut table: Vec<Binding> = Vec::new();
    table.push(Binding { chord: chord_of(false, Key::KeyN), action: ShellAction::NewChat });
    if !platform.reserves_reload_chord() {
        table.push(Binding { chord: chord_of(false, Key::KeyR), action: ShellAction::ReloadMain });
    }
    table.push(
        Binding { chord: chord_of(false, Key::BracketLeft), action: ShellAction::HistoryBack },
    );
    table.push(
        Binding { chord: chord_of(false, Key::BracketRight), action: ShellAction::HistoryForward },
    );
    table.push(Binding { chord: chord_of(true, Key::KeyN), action: ShellAction::OpenNewWindow });
    table.push(Binding { chord: chord_of(true, Key::Space), action: ShellAction::FocusMain });
    table.push(Binding { chord: chord_of(false, Key::Comma), action: ShellAction::OpenConfigFile });
    assert(table@ =~= binding_table(platform));
    table
}

/// The action that a fired chord triggers on `platform`: that of its row in
/// the table, and none for a chord that the table does not hold.
pub fn dispatch_shortcut(platform: Platform, chord: Chord) -> (action: Option<ShellAction>)
    ensures
        action == bound_action(binding_table(platform), chord),
{
    let table = setup_shortcuts(platform);
    let mut i: usize = 0;
    assert(table@.skip(0) =~= table@);
    while i < table.len()
        invariant
            i <= table.len(),
            table@ == binding_table(platform),
            bound_action(table@, chord) == bound_action(table@.skip(i as int), chord),
        decreases table.len() - i,
    {
        assert(table@.skip(i as int)[0] == table@[i as int]);
        if table[i].chord == chord {
            return Some(table[i].action);
        }
        assert(table@.skip(i as int).drop_first() =~= table@.skip(i + 1));
        i += 1;
    }
    None
}

/// A chord finds an action exactly if some row of the table carries it, and
/// the action it finds stands beside it in a row.
pub proof fn lemma_dispatch_matches_registration(table: Seq<Binding>, chord: Chord)
    ensures
        bound_action(table, chord) is Some <==> is_registered(table, chord),
        bound_action(table, chord) matches Some(action) ==> table.contains(
            Binding { chord, action },
        ),
    decreases table.len(),
{
    if table.len() == 0 {
    } else if table[0].chord == chord {
        assert(table[0] == Binding { chord, action: table[0].action });
    } else {
        let rest = table.drop_first();
        lemma_dispatch_matches_registration(rest, chord);
        if is_registered(rest, chord) {
            let i = choose|i: int| 0 <= i < rest.len() && #[trigger] rest[i].chord == chord;
            assert(table[i + 1].chord == chord);
        }
        if is_registered(table, chord) {
            let i = choose|i: int| 0 <= i < table.len() && #[trigger] table[i].chord == chord;
            assert(rest[i - 1].chord == chord);
        }
        if let Some(action) = bound_action(rest, chord) {
            let row = Binding { chord, action };
            let i = choose|i: int| 0 <= i < rest.len() && rest[i] == row;
            assert(table[i + 1] == row);
        }
    }
}

/// Where no two rows share a chord, each row's chord finds that row's action.
pub proof fn lemma_each_row_dispatches(table: Seq<Binding>, i: int)
    requires
        chords_distinct(table),
        0 <= i < table.len(),
    ensures
        bound_action(table, table[i].chord) == Some(table[i].action),
    decreases table.len(),
{
    if i == 0 {
    } else {
        let rest = table.drop_first();
        assert(table[0].chord != table[i].chord);
        assert forall|a: int, b: int| 0 <= a < b < rest.len() implies #[trigger] rest[a].chord
            != #[trigger] rest[b].chord by {
            assert(table[a + 1].chord != table[b + 1].chord);
        }
        assert(rest[i - 1] == table[i]);
        lemma_each_row_dispatches(rest, i - 1);
    }
}

/// On every platform the table binds each chord once, so that registration and
/// dispatch agree row by row; and it binds the reload chord exactly where the
/// system leaves that chord free.
pub proof fn lemma_binding_table(platform: Platform)
    ensures
        chords_distinct(binding_table(platform)),
        forall|i: int|
            0 <= i < binding_table(platform).len() ==> bound_action(
                binding_table(platform),
                #[trigger] binding_table(platform)[i].chord,
            ) == Some(binding_table(platform)[i].action),
        binding_table(platform).contains(reload_binding()) <==> !platform.reload_chord_reserved(),
        is_registered(binding_table(platform), reload_binding().chord)
            <==> !platform.reload_chord_reserved(),
{
    let table = binding_table(platform);
    assert(chords_distinct(table));
    assert forall|i: int| 0 <= i < table.len() implies bound_action(table, #[trigger] table[i].chord)
        == Some(table[i].action) by {
        lemma_each_row_dispatches(table, i);
    }
    if !platform.reload_chord_reserved() {
        assert(table[1] == reload_binding());
    }
}

} // verus!
