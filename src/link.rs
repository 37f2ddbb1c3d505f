use vstd::prelude::*;

use crate::href::{href_of, opt_chars, resolve_href};
use crate::navigation::{dispatch, navigation_of, Navigation};

verus! {

/// What a link is made from: its destination and the parts that decide
/// where a click leads, plus its presentation.
#[derive(Clone, Debug, PartialEq)]
pub struct LinkProps<R, Q> {
    /// CSS classes of the anchor, as one space-separated string.
    pub classes: String,
    /// The route that a click pushes.
    pub to: R,
    /// The fragment appended to the `href` and passed with the push.
    pub fragment: Option<String>,
    /// Query data passed with the push; it does not appear in the `href`.
    pub query: Option<Q>,
    /// Whether the anchor carries the disabled indicator.
    pub disabled: bool,
}

/// The description of the anchor element that a link renders. Its click
/// handler suppresses the browser's own navigation and sends `Msg::OnClick`.
#[derive(Clone, Debug, PartialEq, Eq)]
pub struct Anchor {
    pub class: String,
    pub href: String,
    pub disabled: bool,
}

/// The one message a link handles.
#[derive(Clone, Copy, Debug, PartialEq, Eq)]
pub enum Msg {
    /// The anchor was clicked.
    OnClick,
}

/// A link component. It keeps no navigation state between renders.
#[derive(Debug)]
pub struct Link {}

impl Link {
    /// A new link component.
    pub fn create() -> (r: Link) {
        Link {}
    }

    /// Renders the anchor for `props`, where `path` is the path of `props.to`:
    /// the `href` is the path followed by `#` and the fragment when one is
    /// given; query data never appears in it. Class and disabled flag pass
    /// through as they are.
    pub fn view<R, Q>(&self, props: &LinkProps<R, Q>, path: &String) -> (r: Anchor)
        ensures
            r.href@ == href_of(path@, opt_chars(props.fragment)),
            r.class@ == props.classes@,
            r.disabled == props.disabled,
    {
        Anchor {
            class: props.classes.clone(),
            href: resolve_href(path, &props.fragment),
            disabled: props.disabled,
        }
    }

    /// Handles a message: a click yields the history operation chosen from
    /// `props` and asks for no re-render of the link itself. A disabled link
    /// still yields its operation, as an enabled one does.
    pub fn update<R, Q>(&mut self, props: LinkProps<R, Q>, msg: Msg) -> (r: (Navigation<R, Q>, bool))
        ensures
            r.0 == navigation_of(props.to, props.query, props.fragment),
            !r.1,
            *final(self) == *old(self),
    {
        match msg {
            Msg::OnClick => (dispatch(props.to, props.query, props.fragment), false),
        }
    }
}

/// A link with neither query data nor a fragment renders the route's path as
/// its `href`, and its click pushes that route alone.
pub proof fn lemma_plain_link<R, Q>(props: LinkProps<R, Q>, path: Seq<char>)
    requires
        props.query is None,
        props.fragment is None,
    ensures
        href_of(path, opt_chars(props.fragment)) == path,
        navigation_of(props.to, props.query, props.fragment) == (Navigation::<R, Q>::Push {
            route: props.to,
        }),
{
}

/// A link with fragment `f` renders the path, `#` and `f` as its `href`,
/// whether query data is given or not.
pub proof fn lemma_fragment_link<R, Q>(props: LinkProps<R, Q>, path: Seq<char>, f: String)
    requires
        props.fragment == Option::Some(f),
    ensures
        href_of(path, opt_chars(props.fragment)) == path + seq!['#'] + f@,
{
}

/// A link with query data `q` passes `q` to the push its click performs, and
/// its `href` holds no query: it is the path, followed by `#` and the fragment
/// when one is given.
pub proof fn lemma_query_link<R, Q>(props: LinkProps<R, Q>, path: Seq<char>, q: Q)
    requires
        props.query == Option::Some(q),
    ensures
        navigation_of(props.to, props.query, props.fragment).query_spec() == Option::Some(q),
        props.fragment is None ==> href_of(path, opt_chars(props.fragment)) == path,
        props.fragment matches Option::Some(f) ==> href_of(path, opt_chars(props.fragment))
            == path + seq!['#'] + f@,
{
}

/// The `href` a link renders and the push its click performs agree: both go
/// to the same route, and the `href` carries exactly the fragment that the
/// push passes. The push passes query data exactly when the link has some.
pub proof fn lemma_href_agrees_with_click<R, Q>(props: LinkProps<R, Q>, path: Seq<char>)
    ensures
        ({
            let nav = navigation_of(props.to, props.query, props.fragment);
            &&& nav.route_spec() == props.to
            &&& nav.query_spec() == props.query
            &&& href_of(path, opt_chars(props.fragment)) == href_of(path, nav.fragment_spec())
        }),
{
}

/// Rendering the same link twice gives the same `href`: the anchor's `href`
/// depends on the link and the route's path alone.
pub proof fn lemma_view_idempotent<R, Q>(
    props: LinkProps<R, Q>,
    path: Seq<char>,
    first: Anchor,
    second: Anchor,
)
    requires
        first.href@ == href_of(path, opt_chars(props.fragment)),
        second.href@ == href_of(path, opt_chars(props.fragment)),
    ensures
        first.href@ == second.href@,
{
}

/// Presentation does not change navigation: two links that differ only in
/// their classes or their disabled flag render the same `href` and perform
/// the same push.
pub proof fn lemma_presentation_keeps_navigation<R, Q>(
    a: LinkProps<R, Q>,
    b: LinkProps<R, Q>,
    path: Seq<char>,
)
    requires
        a.to == b.to,
        a.query == b.query,
        a.fragment == b.fragment,
    ensures
        href_of(path, opt_chars(a.fragment)) == href_of(path, opt_chars(b.fragment)),
        navigation_of(a.to, a.query, a.fragment) == navigation_of(b.to, b.query, b.fragment),
{
}

} // verus!
