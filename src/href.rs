use vstd::prelude::*;

verus! {

/// The characters of `path` followed, when a fragment is given, by `#` and the fragment.
pub open spec fn href_of(path: Seq<char>, fragment: Option<Seq<char>>) -> Seq<char> {
    match fragment {
        Option::None => path,
        Option::Some(f) => path + seq!['#'] + f,
    }
}

/// The characters of an optional string.
pub open spec fn opt_chars(o: Option<String>) -> Option<Seq<char>> {
    match o {
        Option::None => Option::None,
        Option::Some(s) => Option::Some(s@),
    }
}

/// Builds the `href` of a link from the route's path and an optional fragment.
pub fn resolve_href(path: &String, fragment: &Option<String>) -> (r: String)
    ensures
        r@ == href_of(path@, opt_chars(*fragment)),
{
    match fragment {
        Option::None => path.clone(),
        Option::Some(f) => {
            proof {
                reveal_strlit("#");
            }
            let mut s = path.clone();
            s.append("#");
            s.append(f.as_str());
            s
        },
    }
}

} // verus!
