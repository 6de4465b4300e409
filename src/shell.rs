//! The application shell as a state machine: it owns the route state, and on
//! each navigation event computes the next route and what the page must do.
use vstd::prelude::*;

use crate::navbar::{nav_targets, NavLink, Navbar};
use crate::route::{current_route, default_route, route_of_fragment};
use crate::router::{page_for, Router};
use crate::table::Page;

verus! {

/// What happened in the page.
pub enum Event {
    /// The location fragment changed; it now reads as given.
    HashChanged(String),
    /// A navigation link to the given path was clicked. An empty path
    /// stands for the default route.
    LinkClicked(String),
}

/// What the page must do after an event.
pub enum Action {
    /// Nothing beyond showing the new route.
    Idle,
    /// Set the visible location fragment to the given path, without a reload.
    SetHash(String),
}

/// The shell: the current route, and the router and navigation bar that
/// render it.
pub struct App {
    route: String,
    router: Router,
    navbar: Navbar,
}

impl App {
    /// The current route.
    pub closed spec fn route_view(&self) -> Seq<char> {
        self.route@
    }

    pub closed spec fn wf(&self) -> bool {
        &&& self.router.wf()
        &&& self.route@.len() > 0
    }

    /// A shell whose route is the one that `fragment` designates.
    pub fn new(fragment: &str) -> (r: App)
        ensures
            r.wf(),
            r.route_view() == route_of_fragment(fragment@),
    {
        App { route: current_route(fragment), router: Router::new(), navbar: Navbar::new() }
    }

    /// The current route.
    pub fn route(&self) -> (r: &String)
        ensures
            r@ == self.route_view(),
    {
        &self.route
    }

    /// Takes `event` into the route state and says what the page must do.
    pub fn handle(&mut self, event: Event) -> (r: Action)
        requires
            old(self).wf(),
        ensures
            final(self).wf(),
            match event {
                Event::HashChanged(fragment) => {
                    &&& final(self).route_view() == route_of_fragment(fragment@)
                    &&& r is Idle
                },
                Event::LinkClicked(path) => {
                    &&& path@.len() > 0 ==> final(self).route_view() == path@
                    &&& path@.len() == 0 ==> final(self).route_view() == default_route()
                    &&& r matches Action::SetHash(h) && h@ == path@
                },
            },
    {
        match event {
            Event::HashChanged(fragment) => {
                self.route = current_route(fragment.as_str());
                Action::Idle
            },
            Event::LinkClicked(path) => {
                if path.as_str().unicode_len() > 0 {
                    self.route = path.clone();
                } else {
                    self.route = String::from_str("/");
                    proof {
                        reveal_strlit("/");
                        assert(self.route@ =~= default_route());
                    }
                }
                Action::SetHash(path)
            },
        }
    }

    /// The content region for the current route.
    pub fn content(&self) -> (r: Page)
        requires
            self.wf(),
        ensures
            r == page_for(self.route_view()),
    {
        self.router.render(&self.route)
    }

    /// The navigation bar for the current route.
    pub fn nav(&self) -> (r: Vec<NavLink>)
        ensures
            r@.len() == nav_targets().len(),
            forall|i: int|
                0 <= i < r@.len() ==> #[trigger] r@[i].renders(nav_targets()[i], self.route_view()),
    {
        self.navbar.render(&self.route)
    }
}

} // verus!
