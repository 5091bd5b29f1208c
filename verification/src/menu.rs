//! State of the collapsible sidebar menu: which option is unfolded, and how
//! a click changes it. The buttons themselves are rendered by the
//! surrounding binary; clicking a link closes the menu and asks the caller
//! to navigate, clicking a submenu unfolds it, and the menu button toggles
//! the base menu open and shut. The state never rests on a link.

use vstd::prelude::*;

use crate::home::Location;

verus! {

/// One entry of the sidebar menu: a navigation link, a nested submenu, or
/// the bare menu button that folds everything shut.
#[derive(Debug, Copy, Clone, Eq, PartialEq, Structural)]
pub enum MenuOption {
    Link(Location),
    Nested(SubMenu),
    Closed,
}

/// A nested submenu of the sidebar.
#[derive(Debug, Copy, Clone, Eq, PartialEq, Structural)]
pub enum SubMenu {
    Base,
    Projects,
}

impl SubMenu {
    /// The entries a submenu unfolds to.
    pub open spec fn options_spec(self) -> Seq<MenuOption> {
        match self {
            SubMenu::Base => seq![
                MenuOption::Link(Location::Home),
                MenuOption::Nested(SubMenu::Projects),
            ],
            SubMenu::Projects => seq![
                MenuOption::Link(Location::Pgwm03),
                MenuOption::Link(Location::Test),
            ],
        }
    }

    /// The entries a submenu unfolds to: the base menu leads home and to the
    /// projects; the projects submenu leads to the write-ups.
    pub fn options(&self) -> (r: Vec<MenuOption>)
        ensures
            r@ == self.options_spec(),
    {
        let mut r: Vec<MenuOption> = Vec::new();
        match self {
            SubMenu::Base => {
                r.push(MenuOption::Link(Location::Home));
                r.push(MenuOption::Nested(SubMenu::Projects));
            },
            SubMenu::Projects => {
                r.push(MenuOption::Link(Location::Pgwm03));
                r.push(MenuOption::Link(Location::Test));
            },
        }
        proof {
            assert(r@ =~= self.options_spec());
        }
        r
    }
}

/// A message driving the sidebar: one option was clicked.
#[derive(Debug, Eq, PartialEq, Structural)]
pub enum SidebarMsg {
    Clicked(MenuOption),
}

/// The sidebar's state: which option is unfolded.
#[derive(Debug)]
pub struct Sidebar {
    state: MenuState,
}

#[derive(Debug)]
struct MenuState {
    selected: MenuOption,
}

impl Sidebar {
    /// The option the menu currently rests on.
    pub closed spec fn selected_spec(&self) -> MenuOption {
        self.state.selected
    }

    /// The menu never rests on a link: a click on a link closes it at once,
    /// so rendering never faces a link state.
    pub open spec fn wf(&self) -> bool {
        !(self.selected_spec() matches MenuOption::Link(_))
    }

    /// The option the menu currently rests on.
    pub fn selected(&self) -> (r: MenuOption)
        ensures
            r == self.selected_spec(),
    {
        self.state.selected
    }

    /// A fresh sidebar is closed.
    pub fn new() -> (r: Self)
        ensures
            r.selected_spec() == MenuOption::Closed,
            r.wf(),
    {
        Self { state: MenuState { selected: MenuOption::Closed } }
    }

    /// One step of the sidebar: a clicked link closes the menu and hands the
    /// caller the location to navigate to; a clicked submenu unfolds it; the
    /// menu button toggles the base menu open and shut. A redraw is always
    /// due, and the new state never rests on a link.
    pub fn update(&mut self, msg: SidebarMsg) -> (r: (bool, Option<Location>))
        ensures
            r.0 == true,
            final(self).wf(),
            match msg {
                SidebarMsg::Clicked(opt) => match opt {
                    MenuOption::Link(loc) => final(self).selected_spec() == MenuOption::Closed
                        && r.1 == Some(loc),
                    MenuOption::Nested(sub) => final(self).selected_spec() == MenuOption::Nested(
                        sub,
                    ) && r.1 is None,
                    MenuOption::Closed => r.1 is None && final(self).selected_spec() == (if old(
                        self,
                    ).selected_spec() == MenuOption::Closed {
                        MenuOption::Nested(SubMenu::Base)
                    } else {
                        MenuOption::Closed
                    }),
                },
            },
    {
        match msg {
            SidebarMsg::Clicked(opt) => match opt {
                MenuOption::Link(location) => {
                    self.state.selected = MenuOption::Closed;
                    (true, Some(location))
                },
                MenuOption::Nested(submenu) => {
                    self.state.selected = MenuOption::Nested(submenu);
                    (true, None)
                },
                MenuOption::Closed => {
                    if self.state.selected == MenuOption::Closed {
                        self.state.selected = MenuOption::Nested(SubMenu::Base);
                    } else {
                        self.state.selected = MenuOption::Closed;
                    }
                    (true, None)
                },
            },
        }
    }
}

} // verus!
