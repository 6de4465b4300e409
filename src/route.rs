//! Resolution of a browser location fragment into a route.
use vstd::prelude::*;

verus! {

/// The fragment without its leading `#` marker, where it has one.
pub open spec fn strip_marker(s: Seq<char>) -> Seq<char> {
    if s.len() > 0 && s[0] == '#' {
        s.drop_first()
    } else {
        s
    }
}

/// The default route, `/`.
pub open spec fn default_route() -> Seq<char> {
    seq!['/']
}

/// The route that a location fragment designates: the fragment with its
/// leading `#` marker removed, or the default route where nothing is left.
pub open spec fn route_of_fragment(fragment: Seq<char>) -> Seq<char> {
    let t = strip_marker(fragment);
    if t.len() == 0 {
        default_route()
    } else {
        t
    }
}

/// Resolves a location fragment (the part of the URL from `#` on, or the
/// empty string when there is none) into a route.
pub fn current_route(fragment: &str) -> (r: String)
    ensures
        r@ == route_of_fragment(fragment@),
        r@.len() > 0,
{
    let n = fragment.unicode_len();
    let start: usize = if n > 0 && fragment.get_char(0) == '#' {
        1
    } else {
        0
    };
    let rest = fragment.substring_char(start, n);
    assert(rest@ =~= strip_marker(fragment@));
    if rest.unicode_len() == 0 {
        let r = String::from_str("/");
        proof {
            reveal_strlit("/");
        }
        r
    } else {
        String::from_str(rest)
    }
}

} // verus!
