//! State of the interactive site shell: which page is currently shown, and
//! how a navigation message changes it. Rendering and routing live in the
//! surrounding binary; the decisions are here.

use vstd::prelude::*;

verus! {

/// The routes of the interactive site.
#[derive(Debug, Copy, Clone, Eq, PartialEq, Structural)]
pub enum Location {
    Home,
    Pgwm03,
    Test,
}

/// A message driving the shell: navigate to a page.
#[derive(Debug, Eq, PartialEq, Structural)]
pub enum Msg {
    Navigate(Location),
}

/// Style class of an unselected sidebar button.
pub const NAV_UNSELECTED: &'static str = "nav-link-box nav-unselected";

/// Style class of the selected sidebar button.
pub const NAV_SELECTED: &'static str = "nav-link-box nav-selected";

/// The shell's state: the page currently shown.
#[derive(Debug)]
pub struct Home {
    current_page: Location,
}

impl Home {
    /// The page currently shown.
    pub closed spec fn current_spec(&self) -> Location {
        self.current_page
    }

    /// A fresh shell shows the home page.
    pub fn new() -> (r: Self)
        ensures
            r.current_spec() == Location::Home,
    {
        Self { current_page: Location::Home }
    }

    /// One step of the shell: navigating moves to the named page, and a
    /// redraw is due exactly when the page changed.
    pub fn update(&mut self, msg: Msg) -> (redraw: bool)
        ensures
            match msg {
                Msg::Navigate(loc) => final(self).current_spec() == loc && redraw == (old(
                    self,
                ).current_spec() != loc),
            },
    {
        match msg {
            Msg::Navigate(loc) => {
                if self.current_page != loc {
                    self.current_page = loc;
                    true
                } else {
                    false
                }
            },
        }
    }

    /// The style class of the sidebar button leading to `target`: selected
    /// exactly when that page is the one shown.
    pub fn nav_class(&self, target: Location) -> (r: &'static str)
        ensures
            self.current_spec() == target ==> r@ == NAV_SELECTED@,
            self.current_spec() != target ==> r@ == NAV_UNSELECTED@,
    {
        if self.current_page == target {
            NAV_SELECTED
        } else {
            NAV_UNSELECTED
        }
    }
}

} // verus!
