//! The navigation bar: a fixed, ordered list of links, the one whose target is
//! the current route drawn in the active style.
use vstd::prelude::*;

use crate::table::tomorrow_route;

verus! {

/// Style classes of the link to the current route.
pub const ACTIVE_CLASS: &'static str = "rounded-md bg-gray-900 px-3 py-2 text-sm font-medium text-white";

/// Style classes of every other link.
pub const INACTIVE_CLASS: &'static str =
    "rounded-md px-3 py-2 text-sm font-medium text-blue transition delay-80 hover:bg-gray-700 hover:text-white";

/// Style classes of the navigation bar itself.
pub const NAV_CLASS: &'static str = "ml-10 flex items-baseline space-x-4";

/// How a link is drawn.
#[derive(Clone, Copy, Debug, PartialEq, Eq, Structural)]
pub enum LinkStyle {
    Active,
    Inactive,
}

impl LinkStyle {
    /// The style classes of this style.
    pub fn class_name(&self) -> (r: &'static str)
        ensures
            r == (if *self == LinkStyle::Active {
                ACTIVE_CLASS
            } else {
                INACTIVE_CLASS
            }),
    {
        match self {
            LinkStyle::Active => ACTIVE_CLASS,
            LinkStyle::Inactive => INACTIVE_CLASS,
        }
    }
}

/// The style of a link to `path` while `current_route` is shown.
pub open spec fn style_for(path: Seq<char>, current_route: Seq<char>) -> LinkStyle {
    if path == current_route {
        LinkStyle::Active
    } else {
        LinkStyle::Inactive
    }
}

/// The title `Today`.
pub open spec fn today_title() -> Seq<char> {
    seq!['T', 'o', 'd', 'a', 'y']
}

/// The title `Tomorrow`.
pub open spec fn tomorrow_title() -> Seq<char> {
    seq!['T', 'o', 'm', 'o', 'r', 'r', 'o', 'w']
}

/// The bar's links in order, each as (title, target path).
pub open spec fn nav_targets() -> Seq<(Seq<char>, Seq<char>)> {
    seq![(today_title(), seq!['/']), (tomorrow_title(), tomorrow_route())]
}

/// One rendered link of the bar.
pub struct NavLink {
    pub title: String,
    pub path: String,
    pub style: LinkStyle,
}

impl NavLink {
    /// Whether this link is the bar's link `target` drawn for `current_route`.
    pub open spec fn renders(
        &self,
        target: (Seq<char>, Seq<char>),
        current_route: Seq<char>,
    ) -> bool {
        &&& self.title@ == target.0
        &&& self.path@ == target.1
        &&& self.style == style_for(target.1, current_route)
    }

    /// The link's `href`: its path behind a `#` marker.
    pub fn href(&self) -> (r: String)
        ensures
            r@ == seq!['#'] + self.path@,
    {
        let mut r = String::from_str("#");
        proof {
            reveal_strlit("#");
        }
        r.append(self.path.as_str());
        r
    }
}

/// Renders the navigation bar's links.
pub struct Navbar {}

impl Navbar {
    pub fn new() -> (r: Navbar) {
        Navbar {}
    }

    /// The link titled `title` to `path`, drawn for `current_route`.
    pub fn link(title: &str, path: &str, current_route: &String) -> (r: NavLink)
        ensures
            r.title@ == title@,
            r.path@ == path@,
            r.style == style_for(path@, current_route@),
    {
        let path = String::from_str(path);
        let style = if path == *current_route {
            LinkStyle::Active
        } else {
            LinkStyle::Inactive
        };
        NavLink { title: String::from_str(title), path, style }
    }

    /// The bar's links, in order, drawn for `current_route`.
    pub fn render(&self, current_route: &String) -> (r: Vec<NavLink>)
        ensures
            r@.len() == nav_targets().len(),
            forall|i: int| 0 <= i < r@.len() ==> #[trigger] r@[i].renders(nav_targets()[i], current_route@),
    {
        let today = Navbar::link("Today", "/", current_route);
        let tomorrow = Navbar::link("Tomorrow", "/tomorrow", current_route);
        proof {
            reveal_strlit("Today");
            reveal_strlit("/");
            reveal_strlit("Tomorrow");
            reveal_strlit("/tomorrow");
            assert(today.title@ =~= today_title());
            assert(today.path@ =~= seq!['/']);
            assert(tomorrow.title@ =~= tomorrow_title());
            assert(tomorrow.path@ =~= tomorrow_route());
        }
        let mut r: Vec<NavLink> = Vec::new();
        r.push(today);
        r.push(tomorrow);
        r
    }
}

} // verus!
