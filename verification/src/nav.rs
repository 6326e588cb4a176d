//! The menu navigation state machine: a bar of groups, each holding a few
//! actionable items. At most one path (one group, at most one item in it) is
//! ever open, which the single `NavState` value enforces by construction.
//! Selecting an item emits its action exactly once and closes the menu.
use vstd::prelude::*;

verus! {

/// The closed set of actions a menu item can carry. Resolved when the menu is
/// built, so an unrecognized action cannot arise at dispatch time.
#[derive(Clone, Copy, PartialEq, Eq, Structural, Debug)]
pub enum MenuAction {
    /// Leave the event loop.
    Exit,
    /// Show information about the program; the loop ignores it today.
    About,
}

/// One group in the menu bar: a title and its items (label plus action).
pub struct MenuGroup {
    pub title: String,
    pub items: Vec<(String, MenuAction)>,
}

/// Where the cursor stands: nothing open, one group open, or one item of the
/// open group focused.
#[derive(Clone, Copy, PartialEq, Eq, Structural, Debug)]
pub enum NavState {
    Closed,
    GroupOpen { group: usize },
    ItemFocused { group: usize, item: usize },
}

/// The menu model together with its cursor.
pub struct Navigation {
    pub groups: Vec<MenuGroup>,
    pub state: NavState,
}

/// Whatever is open points at an existing group and an existing item of it.
pub open spec fn nav_wf(nav: Navigation) -> bool {
    &&& nav.groups@.len() >= 1
    &&& match nav.state {
        NavState::Closed => true,
        NavState::GroupOpen { group } => group < nav.groups@.len(),
        NavState::ItemFocused { group, item } => group < nav.groups@.len() && item
            < nav.groups@[group as int].items@.len(),
    }
}

/// The group to the left of `g`, wrapping around the bar of `n` groups.
pub open spec fn group_left(g: int, n: int) -> int {
    if g == 0 {
        n - 1
    } else {
        g - 1
    }
}

/// The group to the right of `g`, wrapping around the bar of `n` groups.
pub open spec fn group_right(g: int, n: int) -> int {
    if g + 1 == n {
        0
    } else {
        g + 1
    }
}

/// Where a `left` key takes the cursor.
pub open spec fn spec_after_left(nav: Navigation) -> NavState {
    let n = nav.groups@.len() as int;
    match nav.state {
        NavState::Closed => NavState::Closed,
        NavState::GroupOpen { group } => NavState::GroupOpen {
            group: group_left(group as int, n) as usize,
        },
        NavState::ItemFocused { group, item } => NavState::GroupOpen {
            group: group_left(group as int, n) as usize,
        },
    }
}

/// Where a `right` key takes the cursor.
pub open spec fn spec_after_right(nav: Navigation) -> NavState {
    let n = nav.groups@.len() as int;
    match nav.state {
        NavState::Closed => NavState::Closed,
        NavState::GroupOpen { group } => NavState::GroupOpen {
            group: group_right(group as int, n) as usize,
        },
        NavState::ItemFocused { group, item } => NavState::GroupOpen {
            group: group_right(group as int, n) as usize,
        },
    }
}

/// Where a `down` key takes the cursor: into, or further down, the open group.
pub open spec fn spec_after_down(nav: Navigation) -> NavState {
    match nav.state {
        NavState::Closed => NavState::Closed,
        NavState::GroupOpen { group } => if nav.groups@[group as int].items@.len() > 0 {
            NavState::ItemFocused { group, item: 0 }
        } else {
            NavState::GroupOpen { group }
        },
        NavState::ItemFocused { group, item } => if item + 1
            < nav.groups@[group as int].items@.len() {
            NavState::ItemFocused { group, item: (item + 1) as usize }
        } else {
            NavState::ItemFocused { group, item }
        },
    }
}

/// Where an `up` key takes the cursor: up within the open group, or back to
/// the group header from its first item.
pub open spec fn spec_after_up(nav: Navigation) -> NavState {
    match nav.state {
        NavState::Closed => NavState::Closed,
        NavState::GroupOpen { group } => NavState::GroupOpen { group },
        NavState::ItemFocused { group, item } => if item == 0 {
            NavState::GroupOpen { group }
        } else {
            NavState::ItemFocused { group, item: (item - 1) as usize }
        },
    }
}

/// Where `enter` takes the cursor: it opens the first group from the closed
/// bar, focuses the first item of an open group, and selects a focused item
/// (which closes the menu again).
pub open spec fn spec_after_enter(nav: Navigation) -> NavState {
    match nav.state {
        NavState::Closed => NavState::GroupOpen { group: 0 },
        NavState::GroupOpen { group } => if nav.groups@[group as int].items@.len() > 0 {
            NavState::ItemFocused { group, item: 0 }
        } else {
            NavState::GroupOpen { group }
        },
        NavState::ItemFocused { group, item } => NavState::Closed,
    }
}

/// The action `enter` emits: the focused item's action, and nothing otherwise.
pub open spec fn spec_enter_event(nav: Navigation) -> Option<MenuAction> {
    match nav.state {
        NavState::ItemFocused { group, item } => Some(
            nav.groups@[group as int].items@[item as int].1,
        ),
        _ => None,
    }
}

impl Navigation {
    /// Move the cursor one group to the left (wrapping); nothing happens while
    /// the menu is closed.
    pub fn left(&mut self)
        requires
            nav_wf(*old(self)),
        ensures
            nav_wf(*final (self)),
            final (self).state == spec_after_left(*old(self)),
            final (self).groups == old(self).groups,
    {
        let n = self.groups.len();
        self.state = match self.state {
            NavState::Closed => NavState::Closed,
            NavState::GroupOpen { group } | NavState::ItemFocused { group, item: _ } => {
                NavState::GroupOpen { group: if group == 0 { n - 1 } else { group - 1 } }
            },
        };
    }

    /// Move the cursor one group to the right (wrapping); nothing happens
    /// while the menu is closed.
    pub fn right(&mut self)
        requires
            nav_wf(*old(self)),
        ensures
            nav_wf(*final (self)),
            final (self).state == spec_after_right(*old(self)),
            final (self).groups == old(self).groups,
    {
        let n = self.groups.len();
        self.state = match self.state {
            NavState::Closed => NavState::Closed,
            NavState::GroupOpen { group } | NavState::ItemFocused { group, item: _ } => {
                NavState::GroupOpen { group: if group + 1 == n { 0 } else { group + 1 } }
            },
        };
    }

    /// Move the item cursor down within the open group.
    pub fn down(&mut self)
        requires
            nav_wf(*old(self)),
        ensures
            nav_wf(*final (self)),
            final (self).state == spec_after_down(*old(self)),
            final (self).groups == old(self).groups,
    {
        self.state = match self.state {
            NavState::Closed => NavState::Closed,
            NavState::GroupOpen { group } => {
                if self.groups[group].items.len() > 0 {
                    NavState::ItemFocused { group, item: 0 }
                } else {
                    NavState::GroupOpen { group }
                }
            },
            NavState::ItemFocused { group, item } => {
                if item < self.groups[group].items.len() - 1 {
                    NavState::ItemFocused { group, item: item + 1 }
                } else {
                    NavState::ItemFocused { group, item }
                }
            },
        };
    }

    /// Move the item cursor up within the open group.
    pub fn up(&mut self)
        requires
            nav_wf(*old(self)),
        ensures
            nav_wf(*final (self)),
            final (self).state == spec_after_up(*old(self)),
            final (self).groups == old(self).groups,
    {
        self.state = match self.state {
            NavState::Closed => NavState::Closed,
            NavState::GroupOpen { group } => NavState::GroupOpen { group },
            NavState::ItemFocused { group, item } => {
                if item == 0 {
                    NavState::GroupOpen { group }
                } else {
                    NavState::ItemFocused { group, item: item - 1 }
                }
            },
        };
    }

    /// Force the menu shut. From every state, `esc` returns to `Closed` and
    /// emits nothing.
    pub fn esc(&mut self)
        requires
            nav_wf(*old(self)),
        ensures
            nav_wf(*final (self)),
            final (self).state == NavState::Closed,
            final (self).groups == old(self).groups,
    {
        self.state = NavState::Closed;
    }

    /// Open, descend, or select. The returned action is `Some` exactly when an
    /// item was focused, so one `enter` emits at most one selection, and a
    /// selection always closes the menu.
    pub fn enter(&mut self) -> (r: Option<MenuAction>)
        requires
            nav_wf(*old(self)),
        ensures
            nav_wf(*final (self)),
            final (self).state == spec_after_enter(*old(self)),
            final (self).groups == old(self).groups,
            r == spec_enter_event(*old(self)),
            r is Some <==> old(self).state is ItemFocused,
            r is Some ==> final (self).state == NavState::Closed,
    {
        match self.state {
            NavState::Closed => {
                self.state = NavState::GroupOpen { group: 0 };
                None
            },
            NavState::GroupOpen { group } => {
                if self.groups[group].items.len() > 0 {
                    self.state = NavState::ItemFocused { group, item: 0 };
                } else {
                    self.state = NavState::GroupOpen { group };
                }
                None
            },
            NavState::ItemFocused { group, item } => {
                self.state = NavState::Closed;
                Some(self.groups[group].items[item].1)
            },
        }
    }
}

/// The menu the dashboard starts with: a `File` group whose only item exits,
/// and a `Help` group whose only item shows the about text.
pub open spec fn is_default_menu(groups: Seq<MenuGroup>) -> bool {
    &&& groups.len() == 2
    &&& groups[0].title@ == "File"@
    &&& groups[0].items@.len() == 1
    &&& groups[0].items@[0].0@ == "Exit"@
    &&& groups[0].items@[0].1 == MenuAction::Exit
    &&& groups[1].title@ == "Help"@
    &&& groups[1].items@.len() == 1
    &&& groups[1].items@[0].0@ == "About"@
    &&& groups[1].items@[0].1 == MenuAction::About
}

/// Build the default menu, closed.
pub fn make_menu() -> (r: Navigation)
    ensures
        nav_wf(r),
        r.state == NavState::Closed,
        is_default_menu(r.groups@),
{
    let mut file_items: Vec<(String, MenuAction)> = Vec::new();
    file_items.push(("Exit".to_owned(), MenuAction::Exit));
    let mut help_items: Vec<(String, MenuAction)> = Vec::new();
    help_items.push(("About".to_owned(), MenuAction::About));
    let mut groups: Vec<MenuGroup> = Vec::new();
    groups.push(MenuGroup { title: "File".to_owned(), items: file_items });
    groups.push(MenuGroup { title: "Help".to_owned(), items: help_items });
    Navigation { groups, state: NavState::Closed }
}

} // verus!
