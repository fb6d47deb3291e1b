//! Serves an API reference viewer: an embedded HTML page and script bundle,
//! with a caller's JSON configuration substituted into the page.
//!
//! - `mime` infers a MIME type from a path's extension.
//! - `assets` holds the built-in files and looks them up by exact path.
//! - `render` substitutes the configuration and script URL into the page.
//! - `json` is the boundary with serde_json: parsing and compact printing.
//! - `html` renders a page from a JSON value or from JSON text.
//! - `adapter` builds HTTP responses and the page and script routes that a
//!   host server mounts.
//! - `config` holds configuration values built in code.

mod text;

pub mod adapter;
pub mod assets;
pub mod config;
pub mod html;
pub mod json;
pub mod mime;
pub mod render;

pub use assets::{get_asset, get_asset_with_mime, Asset, AssetStore};
pub use html::{
    scalar_html, scalar_html_default, scalar_html_from_json, scalar_html_from_json_default,
};
pub use json::ConfigParseError;
pub use mime::get_mime_type;
pub use render::render_scalar;
