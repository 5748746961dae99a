//! The tray menu: its three entries, and the action that the identifier of an
//! activated entry stands for.

use vstd::prelude::*;
use vstd::string::StrSliceExecFns;

verus! {

/// One entry of the tray menu.
#[derive(Clone, Copy, Debug)]
pub struct MenuEntry {
    /// The identifier under which an activation of the entry is reported.
    pub id: &'static str,
    /// The text that the user sees.
    pub label: &'static str,
    /// Whether the entry can be activated.
    pub enabled: bool,
}

/// What an activated menu entry asks for.
#[derive(Clone, Copy, Debug, PartialEq, Eq, Structural)]
pub enum MenuAction {
    /// Bring the main window to the front.
    Show,
    /// Open the uploads page and bring the main window to the front.
    Upload,
    /// Leave the application.
    Quit,
    /// An identifier that the shell does not know: nothing happens.
    Unrecognized,
}

/// The action that an identifier stands for. Identifiers are matched as a
/// whole and with case: anything but `show`, `upload` and `quit` is
/// unrecognized.
pub open spec fn action_of(id: Seq<char>) -> MenuAction {
    if id == "show"@ {
        MenuAction::Show
    } else if id == "upload"@ {
        MenuAction::Upload
    } else if id == "quit"@ {
        MenuAction::Quit
    } else {
        MenuAction::Unrecognized
    }
}

/// Whether `entries` is the tray menu: Show, Upload, Quit, in this order, all
/// three enabled.
pub open spec fn is_tray_menu(entries: Seq<MenuEntry>) -> bool {
    &&& entries.len() == 3
    &&& entries[0].id@ == "show"@
    &&& entries[0].label@ == "Show WaveStack"@
    &&& entries[1].id@ == "upload"@
    &&& entries[1].label@ == "Upload VOD\u{2026}"@
    &&& entries[2].id@ == "quit"@
    &&& entries[2].label@ == "Quit"@
    &&& forall|i: int| 0 <= i < 3 ==> (#[trigger] entries[i]).enabled
}

/// The text shown when the pointer rests on the tray icon.
pub open spec fn tooltip_text() -> Seq<char> {
    "WaveStack"@
}

/// Compares two strings character by character.
fn same_text(a: &str, b: &str) -> (same: bool)
    ensures
        same == (a@ == b@),
{
    let n = a.unicode_len();
    if n != b.unicode_len() {
        return false;
    }
    let mut i: usize = 0;
    while i < n
        invariant
            n == a@.len(),
            n == b@.len(),
            i <= n,
            forall|j: int| 0 <= j < i ==> a@[j] == b@[j],
        decreases n - i,
    {
        if a.get_char(i) != b.get_char(i) {
            return false;
        }
        i = i + 1;
    }
    assert(a@ =~= b@);
    true
}

/// The three entries of the tray menu, in the order in which they are shown.
pub fn tray_menu() -> (entries: Vec<MenuEntry>)
    ensures
        is_tray_menu(entries@),
{
    let mut entries: Vec<MenuEntry> = Vec::new();
    entries.push(MenuEntry { id: "show", label: "Show WaveStack", enabled: true });
    entries.push(MenuEntry { id: "upload", label: "Upload VOD\u{2026}", enabled: true });
    entries.push(MenuEntry { id: "quit", label: "Quit", enabled: true });
    entries
}

/// The text shown when the pointer rests on the tray icon.
pub fn tray_tooltip() -> (tooltip: &'static str)
    ensures
        tooltip@ == tooltip_text(),
{
    "WaveStack"
}

/// Maps the identifier of an activated menu entry to its action.
pub fn menu_action(id: &str) -> (action: MenuAction)
    ensures
        action == action_of(id@),
{
    if same_text(id, "show") {
        MenuAction::Show
    } else if same_text(id, "upload") {
        MenuAction::Upload
    } else if same_text(id, "quit") {
        MenuAction::Quit
    } else {
        MenuAction::Unrecognized
    }
}

/// The three identifiers stand for three different actions, and an identifier
/// is unrecognized exactly when it is none of the three.
pub proof fn lemma_menu_ids_recognized(id: Seq<char>)
    ensures
        action_of("show"@) == MenuAction::Show,
        action_of("upload"@) == MenuAction::Upload,
        action_of("quit"@) == MenuAction::Quit,
        action_of(id) == MenuAction::Unrecognized <==> id != "show"@ && id != "upload"@ && id
            != "quit"@,
{
    reveal_strlit("show");
    reveal_strlit("upload");
    reveal_strlit("quit");
    assert("quit"@[0] != "show"@[0]);
}

/// Every entry of the tray menu stands for the action in its place.
pub proof fn lemma_tray_menu_actions(entries: Seq<MenuEntry>)
    requires
        is_tray_menu(entries),
    ensures
        action_of(entries[0].id@) == MenuAction::Show,
        action_of(entries[1].id@) == MenuAction::Upload,
        action_of(entries[2].id@) == MenuAction::Quit,
{
    lemma_menu_ids_recognized(entries[0].id@);
}

} // verus!
