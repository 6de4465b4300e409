//! The route table: an exact-match mapping from route to page, built once.
use vstd::prelude::*;

verus! {

/// The page that a route renders. Each variant stands for one view factory.
#[derive(Clone, Copy, Debug, PartialEq, Eq, Structural)]
pub enum Page {
    Home,
    Tomorrow,
    NotFound,
}

/// The route of the tomorrow page, `/tomorrow`.
pub open spec fn tomorrow_route() -> Seq<char> {
    seq!['/', 't', 'o', 'm', 'o', 'r', 'r', 'o', 'w']
}

/// The configured routes: `/` to the home page, `/tomorrow` to the tomorrow
/// page, and the empty route to the not-found page.
pub open spec fn route_map() -> Map<Seq<char>, Page> {
    map![
        seq!['/'] => Page::Home,
        tomorrow_route() => Page::Tomorrow,
        Seq::<char>::empty() => Page::NotFound,
    ]
}

/// One row of the table.
pub struct RouteEntry {
    pub path: String,
    pub page: Page,
}

/// A route table whose paths are pairwise distinct.
pub struct RouteTable {
    entries: Vec<RouteEntry>,
}

impl RouteTable {
    /// No path occurs twice.
    pub closed spec fn wf(&self) -> bool {
        forall|i: int, j: int|
            0 <= i < self.entries@.len() && 0 <= j < self.entries@.len()
                && #[trigger] self.entries@[i].path@ == #[trigger] self.entries@[j].path@ ==> i == j
    }

    /// Whether `route` is the path of some entry.
    pub closed spec fn has_path(&self, route: Seq<char>) -> bool {
        exists|i: int| 0 <= i < self.entries@.len() && #[trigger] self.entries@[i].path@ == route
    }

    /// The table as a map from path to page.
    pub closed spec fn view(&self) -> Map<Seq<char>, Page> {
        Map::new(
            |route: Seq<char>| self.has_path(route),
            |route: Seq<char>|
                self.entries@[choose|i: int|
                    0 <= i < self.entries@.len() && #[trigger] self.entries@[i].path@
                        == route].page,
        )
    }

    /// Builds the configured table.
    pub fn build() -> (r: RouteTable)
        ensures
            r.wf(),
            r.view() == route_map(),
    {
        let mut entries: Vec<RouteEntry> = Vec::new();
        entries.push(RouteEntry { path: String::from_str("/"), page: Page::Home });
        entries.push(RouteEntry { path: String::from_str("/tomorrow"), page: Page::Tomorrow });
        entries.push(RouteEntry { path: String::from_str(""), page: Page::NotFound });
        let r = RouteTable { entries };
        proof {
            reveal_strlit("/");
            reveal_strlit("/tomorrow");
            reveal_strlit("");
            assert(r.entries@[0].path@ =~= seq!['/']);
            assert(r.entries@[1].path@ =~= tomorrow_route());
            assert(r.entries@[2].path@ =~= Seq::<char>::empty());
            assert forall|route: Seq<char>| r.has_path(route) <==> route_map().contains_key(
                route,
            ) by {
                if route_map().contains_key(route) {
                    if route == seq!['/'] {
                        assert(r.entries@[0].path@ == route);
                    } else if route == tomorrow_route() {
                        assert(r.entries@[1].path@ == route);
                    } else {
                        assert(r.entries@[2].path@ == route);
                    }
                }
            }
            assert forall|route: Seq<char>| #[trigger]
                route_map().contains_key(route) implies r.view()[route] == route_map()[route] by {
                let i = choose|i: int|
                    0 <= i < r.entries@.len() && #[trigger] r.entries@[i].path@ == route;
                if route == seq!['/'] {
                    assert(r.entries@[0].path@ == route);
                    assert(i == 0);
                } else if route == tomorrow_route() {
                    assert(r.entries@[1].path@ == route);
                    assert(i == 1);
                } else {
                    assert(r.entries@[2].path@ == route);
                    assert(i == 2);
                }
            }
            assert(r.view() =~= route_map());
        }
        r
    }

    /// The page registered for exactly `route`, if any.
    pub fn lookup(&self, route: &String) -> (r: Option<Page>)
        requires
            self.wf(),
        ensures
            r == (if self.view().contains_key(route@) {
                Some(self.view()[route@])
            } else {
                None
            }),
    {
        let n = self.entries.len();
        let mut i: usize = 0;
        while i < n
            invariant
                i <= n,
                n == self.entries@.len(),
                self.wf(),
                forall|j: int| 0 <= j < i ==> #[trigger] self.entries@[j].path@ != route@,
            decreases n - i,
        {
            if self.entries[i].path == *route {
                proof {
                    let k = choose|k: int|
                        0 <= k < self.entries@.len() && #[trigger] self.entries@[k].path@
                            == route@;
                    assert(self.entries@[k].path@ == self.entries@[i as int].path@);
                }
                return Some(self.entries[i].page);
            }
            i = i + 1;
        }
        None
    }
}

} // verus!
