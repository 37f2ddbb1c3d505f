use vstd::prelude::*;

use crate::href::opt_chars;

verus! {

/// One of the four history operations a link can perform, with its arguments.
#[derive(Clone, Debug, PartialEq, Eq)]
pub enum Navigation<R, Q> {
    /// Push the route alone.
    Push { route: R },
    /// Push the route with a `#fragment`.
    PushWithFragment { route: R, fragment: String },
    /// Push the route with query data.
    PushWithQuery { route: R, query: Q },
    /// Push the route with query data and a `#fragment`.
    PushWithQueryAndFragment { route: R, query: Q, fragment: String },
}

/// The operation chosen for a route, optional query data and an optional
/// fragment: the variant follows which of the two optional parts are present.
pub open spec fn navigation_of<R, Q>(to: R, query: Option<Q>, fragment: Option<String>) -> Navigation<R, Q> {
    match (query, fragment) {
        (Option::None, Option::None) => Navigation::Push { route: to },
        (Option::None, Option::Some(f)) => Navigation::PushWithFragment { route: to, fragment: f },
        (Option::Some(q), Option::None) => Navigation::PushWithQuery { route: to, query: q },
        (Option::Some(q), Option::Some(f)) => Navigation::PushWithQueryAndFragment {
            route: to,
            query: q,
            fragment: f,
        },
    }
}

impl<R, Q> Navigation<R, Q> {
    /// The route that the operation pushes.
    pub open spec fn route_spec(&self) -> R {
        match self {
            Navigation::Push { route } => *route,
            Navigation::PushWithFragment { route, .. } => *route,
            Navigation::PushWithQuery { route, .. } => *route,
            Navigation::PushWithQueryAndFragment { route, .. } => *route,
        }
    }

    /// The query data that the operation passes, if any.
    pub open spec fn query_spec(&self) -> Option<Q> {
        match self {
            Navigation::PushWithQuery { query, .. } => Option::Some(*query),
            Navigation::PushWithQueryAndFragment { query, .. } => Option::Some(*query),
            _ => Option::None,
        }
    }

    /// The characters of the fragment that the operation passes, if any.
    pub open spec fn fragment_spec(&self) -> Option<Seq<char>> {
        match self {
            Navigation::PushWithFragment { fragment, .. } => Option::Some(fragment@),
            Navigation::PushWithQueryAndFragment { fragment, .. } => Option::Some(fragment@),
            _ => Option::None,
        }
    }

    /// The route that the operation pushes.
    pub fn route(&self) -> (r: &R)
        ensures
            *r == self.route_spec(),
    {
        match self {
            Navigation::Push { route } => route,
            Navigation::PushWithFragment { route, .. } => route,
            Navigation::PushWithQuery { route, .. } => route,
            Navigation::PushWithQueryAndFragment { route, .. } => route,
        }
    }

    /// The query data that the operation passes, if any.
    pub fn query(&self) -> (r: Option<&Q>)
        ensures
            r matches Option::Some(q) ==> self.query_spec() == Option::Some(*q),
            r is None <==> self.query_spec() is None,
    {
        match self {
            Navigation::PushWithQuery { query, .. } => Option::Some(query),
            Navigation::PushWithQueryAndFragment { query, .. } => Option::Some(query),
            _ => Option::None,
        }
    }

    /// The fragment that the operation passes, if any.
    pub fn fragment(&self) -> (r: Option<&String>)
        ensures
            r matches Option::Some(f) ==> self.fragment_spec() == Option::Some(f@),
            r is None <==> self.fragment_spec() is None,
    {
        match self {
            Navigation::PushWithFragment { fragment, .. } => Option::Some(fragment),
            Navigation::PushWithQueryAndFragment { fragment, .. } => Option::Some(fragment),
            _ => Option::None,
        }
    }
}

/// Chooses the history operation for a click on a link to `to`: a plain push
/// when neither query data nor a fragment is given, otherwise the push that
/// takes exactly the parts that are given.
pub fn dispatch<R, Q>(to: R, query: Option<Q>, fragment: Option<String>) -> (r: Navigation<R, Q>)
    ensures
        r == navigation_of(to, query, fragment),
        r.route_spec() == to,
        r.query_spec() == query,
        r.fragment_spec() == opt_chars(fragment),
{
    match query {
        Option::None => match fragment {
            Option::None => Navigation::Push { route: to },
            Option::Some(f) => Navigation::PushWithFragment { route: to, fragment: f },
        },
        Option::Some(q) => match fragment {
            Option::None => Navigation::PushWithQuery { route: to, query: q },
            Option::Some(f) => Navigation::PushWithQueryAndFragment {
                route: to,
                query: q,
                fragment: f,
            },
        },
    }
}

} // verus!
