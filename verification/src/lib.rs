//! Build pipeline for a small static site: a fixed catalog of pages is
//! discovered from a markdown source tree, each page's converted HTML is
//! cleaned and wrapped in the site template, a fallback redirect page is
//! synthesized, and static assets are minified, all deterministically.
//!
//! The filesystem walking, subprocess handling and final writes live in the
//! surrounding binary; this library holds the decisions: classification
//! against the catalog, noise stripping, navigation policy, templating,
//! asset allow-listing and the ordering guarantees.

pub mod assemble;
pub mod assets;
pub mod catalog;
pub mod discover;
pub mod errors;
pub mod home;
pub mod menu;
pub mod minify;
pub mod pipeline;
pub mod strip;
pub mod text;
