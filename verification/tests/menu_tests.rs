use sitegen::home::{Home, Location, Msg, NAV_SELECTED, NAV_UNSELECTED};
use sitegen::menu::{MenuOption, Sidebar, SidebarMsg, SubMenu};

#[test]
fn base_menu_leads_home_and_to_projects() {
    let opts = SubMenu::Base.options();
    assert_eq!(
        opts,
        vec![
            MenuOption::Link(Location::Home),
            MenuOption::Nested(SubMenu::Projects),
        ]
    );
}

#[test]
fn projects_menu_leads_to_the_write_ups() {
    let opts = SubMenu::Projects.options();
    assert_eq!(
        opts,
        vec![
            MenuOption::Link(Location::Pgwm03),
            MenuOption::Link(Location::Test),
        ]
    );
}

#[test]
fn menu_button_toggles_the_base_menu() {
    let mut sidebar = Sidebar::new();
    let (redraw, nav) = sidebar.update(SidebarMsg::Clicked(MenuOption::Closed));
    assert!(redraw);
    assert_eq!(nav, None);
    let (redraw, nav) = sidebar.update(SidebarMsg::Clicked(MenuOption::Closed));
    assert!(redraw);
    assert_eq!(nav, None);
    let (_, nav) = sidebar.update(SidebarMsg::Clicked(MenuOption::Closed));
    assert_eq!(nav, None);
}

#[test]
fn clicking_a_link_closes_and_navigates() {
    let mut sidebar = Sidebar::new();
    sidebar.update(SidebarMsg::Clicked(MenuOption::Nested(SubMenu::Projects)));
    let (redraw, nav) = sidebar.update(SidebarMsg::Clicked(MenuOption::Link(Location::Pgwm03)));
    assert!(redraw);
    assert_eq!(nav, Some(Location::Pgwm03));
}

#[test]
fn clicking_a_submenu_unfolds_it() {
    let mut sidebar = Sidebar::new();
    let (redraw, nav) = sidebar.update(SidebarMsg::Clicked(MenuOption::Nested(SubMenu::Base)));
    assert!(redraw);
    assert_eq!(nav, None);
}

#[test]
fn shell_starts_at_home_and_redraws_on_change() {
    let mut shell = Home::new();
    assert_eq!(shell.nav_class(Location::Home), NAV_SELECTED);
    assert_eq!(shell.nav_class(Location::Pgwm03), NAV_UNSELECTED);
    assert!(shell.update(Msg::Navigate(Location::Test)));
    assert!(!shell.update(Msg::Navigate(Location::Test)));
    assert_eq!(shell.nav_class(Location::Test), NAV_SELECTED);
    assert_eq!(shell.nav_class(Location::Home), NAV_UNSELECTED);
}
