use vstd::prelude::*;

verus! {

/// Navigation entries of the sidebar.
#[derive(Debug, Clone, Copy, PartialEq, Eq, Structural)]
pub enum NavItem {
    Home,
    Explore,
    Library,
}

/// Where the user asked to go.
#[derive(Debug, Clone, PartialEq)]
pub enum NavigateAction {
    Home,
    Explore,
    Library,
    Playlist { id: String, name: String },
}

/// The view shown in the center pane.
#[derive(Debug, Clone, Copy, PartialEq, Eq, Structural)]
pub enum CenterView {
    Home,
    Explore,
    Library,
}

/// The action of a click on a navigation entry.
pub fn nav_action(nav: NavItem) -> (a: NavigateAction)
    ensures
        match nav {
            NavItem::Home => a is Home,
            NavItem::Explore => a is Explore,
            NavItem::Library => a is Library,
        },
{
    match nav {
        NavItem::Home => NavigateAction::Home,
        NavItem::Explore => NavigateAction::Explore,
        NavItem::Library => NavigateAction::Library,
    }
}

/// The action of a click on a playlist of the sidebar.
pub fn playlist_action(id: String, name: String) -> (a: NavigateAction)
    ensures
        a == (NavigateAction::Playlist { id, name }),
{
    NavigateAction::Playlist { id, name }
}

/// Where a navigation leads: the view for the center pane, and the sidebar
/// entry to mark active (none for a playlist, which opens the library view
/// and leaves the sidebar as it is).
pub open spec fn target_of(action: NavigateAction) -> (CenterView, Option<NavItem>) {
    match action {
        NavigateAction::Home => (CenterView::Home, Some(NavItem::Home)),
        NavigateAction::Explore => (CenterView::Explore, Some(NavItem::Explore)),
        NavigateAction::Library => (CenterView::Library, Some(NavItem::Library)),
        NavigateAction::Playlist { .. } => (CenterView::Library, None),
    }
}

/// Decides where a navigation leads (see [`target_of`]).
pub fn navigation_target(action: &NavigateAction) -> (t: (CenterView, Option<NavItem>))
    ensures
        t == target_of(*action),
{
    match action {
        NavigateAction::Home => (CenterView::Home, Some(NavItem::Home)),
        NavigateAction::Explore => (CenterView::Explore, Some(NavItem::Explore)),
        NavigateAction::Library => (CenterView::Library, Some(NavItem::Library)),
        NavigateAction::Playlist { .. } => (CenterView::Library, None),
    }
}

/// Clicking a navigation entry shows its view and marks that entry active.
pub proof fn lemma_nav_click_round_trip(nav: NavItem)
    ensures
        ({
            let a = match nav {
                NavItem::Home => NavigateAction::Home,
                NavItem::Explore => NavigateAction::Explore,
                NavItem::Library => NavigateAction::Library,
            };
            target_of(a).1 == Some(nav)
        }),
{
}

} // verus!
