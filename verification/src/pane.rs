use vstd::prelude::*;

verus! {

/// Whether the application runs as a windowed app or draws the desktop.
#[derive(Clone, Copy, Debug, Eq, PartialEq, Structural)]
pub enum Mode {
    App,
    Desktop,
}

/// The four panes of the main window.
#[derive(Clone, Copy, Debug, Eq, Hash, Ord, PartialEq, PartialOrd, Structural)]
pub enum PaneType {
    ButtonPane,
    TerminalPane,
    LeftPane,
    RightPane,
}

/// One pane of the grid and whether the user pinned it.
#[derive(Clone, Copy, Debug, Eq, Hash, Ord, PartialEq, PartialOrd, Structural)]
pub struct Pane {
    pub id: PaneType,
    pub is_pinned: bool,
}

impl Pane {
    /// A fresh, unpinned pane.
    pub fn new(id: PaneType) -> (r: Pane)
        ensures
            r == (Pane { id, is_pinned: false }),
    {
        Pane { id, is_pinned: false }
    }
}

/// Position of a favorite in the sidebar.
#[derive(Clone, Copy, Debug, Eq, PartialEq, Structural)]
pub struct FavoriteIndex(pub usize);

} // verus!
