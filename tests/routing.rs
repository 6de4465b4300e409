use hash_router::navbar::{LinkStyle, Navbar, ACTIVE_CLASS, INACTIVE_CLASS};
use hash_router::route::current_route;
use hash_router::router::Router;
use hash_router::shell::{Action, App, Event};
use hash_router::table::{Page, RouteTable};

fn s(text: &str) -> String {
    text.to_string()
}

#[test]
fn empty_fragment_is_default_route() {
    assert_eq!(current_route(""), "/");
}

#[test]
fn bare_marker_is_default_route() {
    assert_eq!(current_route("#"), "/");
    assert_eq!(current_route("###"), "##");
}

#[test]
fn tomorrow_fragment_resolves() {
    assert_eq!(current_route("#/tomorrow"), "/tomorrow");
}

#[test]
fn only_one_leading_marker_is_stripped() {
    assert_eq!(current_route("##/tomorrow"), "#/tomorrow");
    assert_eq!(current_route("##"), "#");
    assert_eq!(current_route("#/a#b"), "/a#b");
}

#[test]
fn fragment_without_marker_is_kept() {
    assert_eq!(current_route("/tomorrow"), "/tomorrow");
    assert_eq!(current_route("#/%20x"), "/%20x");
    assert_eq!(current_route("#/é"), "/é");
}

#[test]
fn table_lookup_is_exact() {
    let table = RouteTable::build();
    assert_eq!(table.lookup(&s("/")), Some(Page::Home));
    assert_eq!(table.lookup(&s("/tomorrow")), Some(Page::Tomorrow));
    assert_eq!(table.lookup(&s("")), Some(Page::NotFound));
    assert_eq!(table.lookup(&s("/tomorrow/")), None);
    assert_eq!(table.lookup(&s("/Tomorrow")), None);
    assert_eq!(table.lookup(&s("/tom")), None);
}

#[test]
fn registered_routes_render_their_page() {
    let router = Router::new();
    assert_eq!(router.render(&s("/")), Page::Home);
    assert_eq!(router.render(&s("/tomorrow")), Page::Tomorrow);
    assert_eq!(router.render(&s("")), Page::NotFound);
}

#[test]
fn unregistered_routes_render_not_found() {
    let router = Router::new();
    assert_eq!(router.render(&s("/yesterday")), Page::NotFound);
    assert_eq!(router.render(&s("tomorrow")), Page::NotFound);
    assert_eq!(router.render(&s("//")), Page::NotFound);
}

#[test]
fn rendering_twice_gives_the_same_page() {
    let router = Router::new();
    let other = Router::new();
    for route in ["/", "/tomorrow", "", "/missing"] {
        let first = router.render(&s(route));
        let second = router.render(&s(route));
        assert_eq!(first, second);
        assert_eq!(first, other.render(&s(route)));
    }
}

#[test]
fn navbar_marks_tomorrow_active() {
    let links = Navbar::new().render(&s("/tomorrow"));
    assert_eq!(links.len(), 2);
    assert_eq!(links[0].title, "Today");
    assert_eq!(links[0].path, "/");
    assert_eq!(links[0].style, LinkStyle::Inactive);
    assert_eq!(links[1].title, "Tomorrow");
    assert_eq!(links[1].path, "/tomorrow");
    assert_eq!(links[1].style, LinkStyle::Active);
}

#[test]
fn navbar_marks_today_active() {
    let links = Navbar::new().render(&s("/"));
    assert_eq!(links[0].style, LinkStyle::Active);
    assert_eq!(links[1].style, LinkStyle::Inactive);
}

#[test]
fn navbar_on_unknown_route_has_no_active_link() {
    let links = Navbar::new().render(&s("/missing"));
    assert_eq!(links[0].style, LinkStyle::Inactive);
    assert_eq!(links[1].style, LinkStyle::Inactive);
}

#[test]
fn link_styles_and_href() {
    assert_eq!(LinkStyle::Active.class_name(), ACTIVE_CLASS);
    assert_eq!(LinkStyle::Inactive.class_name(), INACTIVE_CLASS);
    assert_ne!(ACTIVE_CLASS, INACTIVE_CLASS);
    let link = Navbar::link("Tomorrow", "/tomorrow", &s("/"));
    assert_eq!(link.href(), "#/tomorrow");
    assert_eq!(link.style, LinkStyle::Inactive);
    let link = Navbar::link("Today", "/", &s("/"));
    assert_eq!(link.href(), "#/");
    assert_eq!(link.style, LinkStyle::Active);
}

#[test]
fn app_starts_from_fragment() {
    let app = App::new("#/tomorrow");
    assert_eq!(app.route(), "/tomorrow");
    assert_eq!(app.content(), Page::Tomorrow);
    let app = App::new("");
    assert_eq!(app.route(), "/");
    assert_eq!(app.content(), Page::Home);
}

#[test]
fn link_click_sets_route_and_fragment() {
    let mut app = App::new("");
    let action = app.handle(Event::LinkClicked(s("/tomorrow")));
    assert_eq!(app.route(), "/tomorrow");
    assert!(matches!(action, Action::SetHash(ref h) if h == "/tomorrow"));
    assert_eq!(app.content(), Page::Tomorrow);
    let links = app.nav();
    assert_eq!(links[1].style, LinkStyle::Active);
    assert_eq!(links[0].style, LinkStyle::Inactive);
}

#[test]
fn clicked_fragment_resolves_back_to_route() {
    let mut app = App::new("");
    let action = app.handle(Event::LinkClicked(s("/tomorrow")));
    let fragment = match action {
        Action::SetHash(h) => format!("#{}", h),
        Action::Idle => panic!("a click sets the fragment"),
    };
    let action = app.handle(Event::HashChanged(fragment));
    assert!(matches!(action, Action::Idle));
    assert_eq!(app.route(), "/tomorrow");
    app.handle(Event::LinkClicked(s("#x")));
    app.handle(Event::HashChanged(s("##x")));
    assert_eq!(app.route(), "#x");
}

#[test]
fn empty_link_click_goes_to_default_route() {
    let mut app = App::new("#/tomorrow");
    let action = app.handle(Event::LinkClicked(s("")));
    assert_eq!(app.route(), "/");
    assert!(matches!(action, Action::SetHash(ref h) if h.is_empty()));
}

#[test]
fn hash_change_updates_route() {
    let mut app = App::new("#/tomorrow");
    let action = app.handle(Event::HashChanged(s("")));
    assert!(matches!(action, Action::Idle));
    assert_eq!(app.route(), "/");
    assert_eq!(app.content(), Page::Home);
    app.handle(Event::HashChanged(s("#/nowhere")));
    assert_eq!(app.route(), "/nowhere");
    assert_eq!(app.content(), Page::NotFound);
}

#[test]
fn unchanged_route_renders_same_content() {
    let mut app = App::new("#/tomorrow");
    let before = app.content();
    app.handle(Event::HashChanged(s("#/tomorrow")));
    assert_eq!(app.content(), before);
    assert_eq!(app.content(), app.content());
}
