//! Navigation links for a client-side router: the `href` a link renders and
//! the history operation its click performs, decided from one descriptor.
pub mod href;
pub mod link;
pub mod navigation;

pub use href::{href_of, opt_chars, resolve_href};
pub use link::{Anchor, Link, LinkProps, Msg};
pub use navigation::{dispatch, navigation_of, Navigation};
