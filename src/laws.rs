//! Properties that tie the router, the route resolution and the shell together.
use vstd::prelude::*;

use crate::route::route_of_fragment;
use crate::router::Router;
use crate::table::{route_map, Page};

verus! {

/// Every registered route renders the page registered for it; apart from the
/// empty route, whose entry is the not-found page, that is never the
/// not-found page.
pub proof fn lemma_registered_route_renders_its_page(router: &Router, route: Seq<char>)
    requires
        router.wf(),
        route_map().contains_key(route),
    ensures
        router.spec_render(route) == route_map()[route],
        route.len() > 0 ==> router.spec_render(route) != Page::NotFound,
{
    router.lemma_wf_render(route);
}

/// A route that the table does not hold renders the not-found page.
pub proof fn lemma_unregistered_route_renders_not_found(router: &Router, route: Seq<char>)
    requires
        router.wf(),
        !route_map().contains_key(route),
    ensures
        router.spec_render(route) == Page::NotFound,
{
    router.lemma_wf_render(route);
}

/// Rendering depends on the route alone: any two routers, or one router
/// asked twice, show the same page for the same route.
pub proof fn lemma_render_idempotent(first: &Router, second: &Router, route: Seq<char>)
    requires
        first.wf(),
        second.wf(),
    ensures
        first.spec_render(route) == second.spec_render(route),
{
    first.lemma_wf_render(route);
    second.lemma_wf_render(route);
}

/// A link's target path, once written as the location fragment, resolves
/// back to that same route.
pub proof fn lemma_clicked_fragment_resolves_to_path(path: Seq<char>)
    requires
        path.len() > 0,
    ensures
        route_of_fragment(seq!['#'] + path) == path,
{
    assert((seq!['#'] + path).drop_first() =~= path);
}

} // verus!
