//! The rules of the window that are decided apart from any toolkit: where
//! a divider may stand, which page the sidebar shows, and what a folder
//! shows when it is opened or closed.

use vstd::prelude::*;
use crate::codes::text_eq;

verus! {

/// The narrowest that the pane of collections may be.
pub const PRIMARY_MIN: i32 = 300;

/// The widest that the pane of collections may be.
pub const PRIMARY_MAX: i32 = 700;

/// The narrowest that the pane of the request may be.
pub const SECONDARY_MIN: i32 = 250;

/// The position that the first divider takes when it is put at `position`:
/// the position itself, held between the two bounds.
pub fn validate_paned_primary_position(position: i32) -> (held: i32)
    ensures
        held == if position < PRIMARY_MIN {
            PRIMARY_MIN
        } else if position > PRIMARY_MAX {
            PRIMARY_MAX
        } else {
            position
        },
        PRIMARY_MIN <= held <= PRIMARY_MAX,
{
    if position < PRIMARY_MIN {
        PRIMARY_MIN
    } else if position > PRIMARY_MAX {
        PRIMARY_MAX
    } else {
        position
    }
}

/// The position that the second divider takes when it is put at
/// `position`: the position itself, or the lower bound where it is below.
pub fn validate_paned_secondary_position(position: i32) -> (held: i32)
    ensures
        held == if position < SECONDARY_MIN {
            SECONDARY_MIN
        } else {
            position
        },
        held >= SECONDARY_MIN,
{
    if position < SECONDARY_MIN {
        SECONDARY_MIN
    } else {
        position
    }
}

/// A page of the sidebar.
#[derive(Clone, Copy, Debug, PartialEq, Eq, Structural)]
pub enum SidebarPage {
    Rest,
    Realtime,
    Settings,
}

impl SidebarPage {
    /// The name under which the stack of pages knows this page.
    pub open spec fn name(self) -> Seq<char> {
        match self {
            SidebarPage::Rest => "rest_page"@,
            SidebarPage::Realtime => "realtime_page"@,
            SidebarPage::Settings => "settings_page"@,
        }
    }

    /// The name under which the stack of pages knows this page.
    pub fn page_name(&self) -> (name: &'static str)
        ensures
            name@ == self.name(),
    {
        match self {
            SidebarPage::Rest => "rest_page",
            SidebarPage::Realtime => "realtime_page",
            SidebarPage::Settings => "settings_page",
        }
    }
}

/// Which buttons of the sidebar are marked as active.
#[derive(Clone, Copy, Debug, PartialEq, Eq, Structural)]
pub struct SidebarMarks {
    pub rest: bool,
    pub realtime: bool,
    pub settings: bool,
}

/// The marks after a click on the button of `page`: that button is active
/// and no other is.
pub fn marks_after_click(page: SidebarPage) -> (marks: SidebarMarks)
    ensures
        marks.rest == (page == SidebarPage::Rest),
        marks.realtime == (page == SidebarPage::Realtime),
        marks.settings == (page == SidebarPage::Settings),
{
    match page {
        SidebarPage::Rest => SidebarMarks { rest: true, realtime: false, settings: false },
        SidebarPage::Realtime => SidebarMarks { rest: false, realtime: true, settings: false },
        SidebarPage::Settings => SidebarMarks { rest: false, realtime: false, settings: true },
    }
}

/// The icon of a folder that is closed.
pub open spec fn closed_folder() -> Seq<char> {
    "folder-visiting-symbolic"@
}

/// The icon of a folder that is open.
pub open spec fn open_folder() -> Seq<char> {
    "folder-drag-accept-symbolic"@
}

/// What a folder shows after a click, given whether it was open: its new
/// icon, and whether it is open now.
pub fn folder_after_click(was_open: bool) -> (shown: (&'static str, bool))
    ensures
        shown.1 == !was_open,
        shown.0@ == if was_open {
            closed_folder()
        } else {
            open_folder()
        },
{
    if was_open {
        ("folder-visiting-symbolic", false)
    } else {
        ("folder-drag-accept-symbolic", true)
    }
}

/// Whether the requests of a folder are on show, given the icon that the
/// folder shows: they are hidden under no icon and under the icon of a
/// closed folder.
pub fn requests_visible(icon_name: Option<&str>) -> (visible: bool)
    ensures
        visible == (icon_name matches Some(name) && name@ != closed_folder()),
{
    match icon_name {
        None => false,
        Some(name) => !text_eq(name, "folder-visiting-symbolic"),
    }
}

/// Which of the two boxes of the collections pane is on show: the list
/// where there is a collection, the invitation to create one where there is
/// none.
pub fn list_is_shown(n_items: u32) -> (filled: bool)
    ensures
        filled == (n_items > 0),
{
    n_items > 0
}

} // verus!
