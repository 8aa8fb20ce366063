//! What the three buttons of the title bar ask of the main window.

use vstd::prelude::*;

verus! {

/// The label of the window that the buttons act on.
pub const MAIN_WINDOW: &'static str = "main";

/// A request to the window system, for the window labelled [`MAIN_WINDOW`].
#[derive(Clone, Copy, PartialEq, Eq, Debug)]
pub enum WindowAction {
    /// Close the window.
    Close,
    /// Hide the window in the task bar.
    Minimize,
    /// Let the window fill the screen.
    Maximize,
    /// Give the window its former size back.
    Unmaximize,
}

/// What the maximize button asks for: it toggles, so a window that fills the
/// screen gets its former size back and any other window fills the screen.
pub open spec fn maximize_toggle(maximized: bool) -> WindowAction {
    if maximized {
        WindowAction::Unmaximize
    } else {
        WindowAction::Maximize
    }
}

/// The close button closes the main window.
pub fn close_app() -> (r: WindowAction)
    ensures
        r == WindowAction::Close,
{
    WindowAction::Close
}

/// The minimize button minimizes the main window.
pub fn minimize_app() -> (r: WindowAction)
    ensures
        r == WindowAction::Minimize,
{
    WindowAction::Minimize
}

/// The maximize button toggles; `maximized` says whether the main window
/// fills the screen now.
pub fn maximize_app(maximized: bool) -> (r: WindowAction)
    ensures
        r == maximize_toggle(maximized),
{
    if maximized {
        WindowAction::Unmaximize
    } else {
        WindowAction::Maximize
    }
}

} // verus!
