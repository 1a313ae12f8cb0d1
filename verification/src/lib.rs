//! A small page router: it maps the path of an incoming GET request to the
//! name of the static template that the page is rendered from, and builds
//! the fixed render context that every page is rendered with. Rendering
//! itself and the HTTP server belong to the web framework outside this
//! library.

pub mod pages;
pub mod router;
