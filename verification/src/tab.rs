//! The views of the workbench, one of which is shown at a time.

use vstd::prelude::*;
use vstd::string::*;

verus! {

/// A view of the workbench. F2 goes from each to the next, and from the last
/// back to the first.
#[derive(Clone, Copy, Debug, PartialEq, Eq, Structural)]
pub enum Tab {
    SqlEditor,
    TableView,
    LogViewer,
}

/// The number of views.
pub const TAB_COUNT: usize = 3;

impl Tab {
    /// The position of the view in the tab bar, from 0.
    pub open spec fn index(self) -> nat {
        match self {
            Tab::SqlEditor => 0,
            Tab::TableView => 1,
            Tab::LogViewer => 2,
        }
    }

    /// The view that follows this one in the tab bar, around the end.
    pub open spec fn successor(self) -> Tab {
        match self {
            Tab::SqlEditor => Tab::TableView,
            Tab::TableView => Tab::LogViewer,
            Tab::LogViewer => Tab::SqlEditor,
        }
    }

    /// The title of the view in the tab bar.
    pub open spec fn title(self) -> Seq<char> {
        match self {
            Tab::SqlEditor => "SQL Editor"@,
            Tab::TableView => "Table View"@,
            Tab::LogViewer => "Log Viewer"@,
        }
    }

    /// The view at a position of the tab bar.
    pub fn from_index(index: usize) -> (t: Tab)
        requires
            index < TAB_COUNT,
        ensures
            t.index() == index,
    {
        if index == 0 {
            Tab::SqlEditor
        } else if index == 1 {
            Tab::TableView
        } else {
            Tab::LogViewer
        }
    }

    /// The position of the view in the tab bar.
    pub fn to_index(self) -> (i: usize)
        ensures
            i == self.index(),
            i < TAB_COUNT,
    {
        match self {
            Tab::SqlEditor => 0,
            Tab::TableView => 1,
            Tab::LogViewer => 2,
        }
    }

    /// The view that follows this one, around the end.
    pub fn next(self) -> (t: Tab)
        ensures
            t == self.successor(),
            t.index() == (self.index() + 1) % (TAB_COUNT as nat),
    {
        match self {
            Tab::SqlEditor => Tab::TableView,
            Tab::TableView => Tab::LogViewer,
            Tab::LogViewer => Tab::SqlEditor,
        }
    }

    /// Writes the title of the view.
    pub fn to_string(&self) -> (r: String)
        ensures
            r@ == self.title(),
    {
        match self {
            Tab::SqlEditor => "SQL Editor".to_owned(),
            Tab::TableView => "Table View".to_owned(),
            Tab::LogViewer => "Log Viewer".to_owned(),
        }
    }
}

impl Default for Tab {
    /// The workbench opens on the editor.
    fn default() -> (t: Tab)
        ensures
            t == Tab::SqlEditor,
    {
        Tab::SqlEditor
    }
}

/// A view is found again from its position: two views at one position are
/// one view.
pub proof fn lemma_tab_index_is_injective(a: Tab, b: Tab)
    requires
        a.index() == b.index(),
    ensures
        a == b,
{
}

/// Going to the next view as many times as there are views leads back to
/// where one started.
pub proof fn lemma_tab_cycle(t: Tab)
    ensures
        t.successor().successor().successor() == t,
        t.successor() != t,
{
}

} // verus!
