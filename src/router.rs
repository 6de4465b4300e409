//! The router: dispatches a route to the page that the route table gives it.
use vstd::prelude::*;

use crate::table::{route_map, Page, RouteTable};

verus! {

/// The page that the configured table shows for `route`: its registered page,
/// or the not-found page where the route has no entry.
pub open spec fn page_for(route: Seq<char>) -> Page {
    if route_map().contains_key(route) {
        route_map()[route]
    } else {
        Page::NotFound
    }
}

/// Dispatches routes through the configured route table.
pub struct Router {
    components: RouteTable,
}

impl Router {
    /// The router holds the configured table.
    pub closed spec fn wf(&self) -> bool {
        &&& self.components.wf()
        &&& self.components.view() == route_map()
    }

    /// The page that this router shows for `route`.
    pub closed spec fn spec_render(&self, route: Seq<char>) -> Page {
        if self.components.view().contains_key(route) {
            self.components.view()[route]
        } else {
            Page::NotFound
        }
    }

    /// A well-formed router shows, for each route, the page of the configured
    /// table.
    pub proof fn lemma_wf_render(&self, route: Seq<char>)
        requires
            self.wf(),
        ensures
            self.spec_render(route) == page_for(route),
    {
    }

    pub fn new() -> (r: Router)
        ensures
            r.wf(),
    {
        Router { components: RouteTable::build() }
    }

    /// The page for `route`: the registered one, else the not-found page.
    pub fn render(&self, route: &String) -> (r: Page)
        requires
            self.wf(),
        ensures
            r == self.spec_render(route@),
            r == page_for(route@),
    {
        match self.components.lookup(route) {
            Some(page) => page,
            None => Page::NotFound,
        }
    }
}

} // verus!
