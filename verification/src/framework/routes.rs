//! The registry of routes: which component renders which path.
use vstd::prelude::*;
use crate::platform::{push_char, spec_to_uppercase, to_uppercase};
use crate::text::chars_of;
use crate::seq_util::keep;
use crate::text::{split_on, split_str, string_views};

verus! {

/// A route: a path pattern and the name of the component that renders it.
#[derive(Debug, Clone)]
pub struct RouteEntry {
    /// The path pattern (e.g. "/product/:id").
    pub path: String,
    /// The name of the component rendering the path.
    pub component: String,
}

/// The routes of an application, in the order they were registered.
#[derive(Debug, Clone)]
pub struct RouteRegistry {
    entries: Vec<RouteEntry>,
}

/// The path and component name of each route, in order.
pub open spec fn route_pairs(entries: Seq<RouteEntry>) -> Seq<(Seq<char>, Seq<char>)> {
    entries.map_values(|e: RouteEntry| (e.path@, e.component@))
}

impl View for RouteRegistry {
    type V = Seq<(Seq<char>, Seq<char>)>;

    closed spec fn view(&self) -> Seq<(Seq<char>, Seq<char>)> {
        route_pairs(self.entries@)
    }
}

impl RouteRegistry {
    /// A registry with no routes.
    pub fn new() -> (r: Self)
        ensures
            r@.len() == 0,
    {
        let r = RouteRegistry { entries: Vec::new() };
        assert(r@ =~= Seq::empty());
        r
    }

    /// Register a route after the existing ones.
    pub fn register(&mut self, path: &str, component: &str)
        ensures
            final(self)@ == old(self)@.push((path@, component@)),
    {
        self.entries.push(RouteEntry { path: path.to_string(), component: component.to_string() });
        assert(route_pairs(self.entries@) =~= route_pairs(old(self).entries@).push((path@, component@)));
    }

    /// The registered routes, in registration order.
    pub fn routes(&self) -> (r: &Vec<RouteEntry>)
        ensures
            route_pairs(r@) == self@,
    {
        &self.entries
    }
}

impl Default for RouteRegistry {
    fn default() -> (r: Self)
        ensures
            r@.len() == 0,
    {
        RouteRegistry::new()
    }
}


/// Route metadata that a page declares: its path pattern and component name.
#[derive(Debug, Clone)]
pub struct RouteMeta {
    /// The path pattern (e.g. "/product/:id").
    pub path: String,
    /// The name of the component rendering the path.
    pub component_name: String,
}

/// Whether a path segment is a parameter (`:name`).
pub open spec fn is_param_segment(s: Seq<char>) -> bool {
    s.len() > 0 && s[0] == ':'
}

/// The parameter names of a path pattern: the segments that start with `:`,
/// without it, in order.
pub open spec fn route_param_names(path: Seq<char>) -> Seq<Seq<char>> {
    keep(split_on(path, '/'), |s: Seq<char>| is_param_segment(s)).map_values(|s: Seq<char>| s.drop_first())
}

/// The parameter names of a path pattern (e.g. `["id"]` for "/product/:id").
pub fn route_params(path: &str) -> (r: Vec<String>)
    ensures
        string_views(r@) == route_param_names(path@),
{
    let segments = split_str(path, '/');
    let ghost sv = string_views(segments@);
    let ghost p = |s: Seq<char>| is_param_segment(s);
    let mut out: Vec<String> = Vec::new();
    let mut i: usize = 0;
    while i < segments.len()
        invariant
            i <= segments@.len(),
            sv == string_views(segments@),
            sv == split_on(path@, '/'),
            p == (|s: Seq<char>| is_param_segment(s)),
            string_views(out@) =~= keep(sv.take(i as int), p).map_values(|s: Seq<char>| s.drop_first()),
        decreases segments@.len() - i,
    {
        assert(sv.take(i + 1).drop_last() =~= sv.take(i as int));
        let chars = chars_of(segments[i].as_str());
        if chars.len() > 0 && chars[0] == ':' {
            let mut name = String::new();
            let mut k: usize = 1;
            while k < chars.len()
                invariant
                    1 <= k <= chars@.len(),
                    name@ =~= chars@.subrange(1, k as int),
                decreases chars@.len() - k,
            {
                push_char(&mut name, chars[k]);
                k = k + 1;
            }
            let ghost before = string_views(out@);
            out.push(name);
            assert(string_views(out@) =~= before.push(name@));
            assert(name@ =~= sv[i as int].drop_first());
        }
        i = i + 1;
    }
    assert(sv.take(i as int) =~= sv);
    out
}

/// The name of the constant holding a page's route metadata:
/// `__TURBO_ROUTE_` and the component name in upper case.
pub fn route_meta_name(component: &str) -> (r: String)
    ensures
        r@ == "__TURBO_ROUTE_"@ + spec_to_uppercase(component@),
{
    let mut s = "__TURBO_ROUTE_".to_string();
    s.append(to_uppercase(component).as_str());
    s
}

impl RouteMeta {
    /// The metadata of a page.
    pub fn new(path: &str, component_name: &str) -> (r: Self)
        ensures
            r.path@ == path@,
            r.component_name@ == component_name@,
    {
        RouteMeta { path: path.to_string(), component_name: component_name.to_string() }
    }
}

} // verus!
