//! The shell actions: the closed set of things a shortcut, a menu item or a
//! tray item can ask of the shell.

use vstd::prelude::*;

verus! {

/// One logical operation of the shell.
#[derive(Clone, Copy, Debug, PartialEq, Eq, Structural)]
pub enum ShellAction {
    /// Bring the main window forward, or open a window if there is none.
    FocusMain,
    /// Point the main window at the chat page.
    NewChat,
    /// Open one more window.
    OpenNewWindow,
    /// Point the main window at the settings view.
    NavigateSettings,
    /// Reload the page in the main window.
    ReloadMain,
    /// Go one step back in the main window's history.
    HistoryBack,
    /// Go one step forward in the main window's history.
    HistoryForward,
    /// Open the configuration file in an editor.
    OpenConfigFile,
    /// Open the documentation in the browser.
    OpenDocs,
    /// Leave the program.
    Quit,
}

} // verus!
