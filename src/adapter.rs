use vstd::prelude::*;
use vstd::string::*;
use vstd::utf8::*;

use crate::assets::{asset_at, embedded_assets, AssetStore};
use crate::html::{html_for, html_from_json_text, scalar_html, scalar_html_from_json};
use crate::json::{compact_json, json_text_of, ConfigParseError};
use crate::mime::mime_of;
use crate::render::{render_scalar, rendered_page, text_of};
use crate::text::{same_text, utf8_bytes};

verus! {

/// Name of the script asset, served under the page's path.
pub const SCRIPT_ASSET: &'static str = "scalar.js";

/// An HTTP response as a handler produces it, for a host server to send.
pub struct HttpResponse {
    pub status: u16,
    pub content_type: String,
    pub body: Vec<u8>,
}

impl View for HttpResponse {
    type V = (u16, Seq<char>, Seq<u8>);

    open spec fn view(&self) -> (u16, Seq<char>, Seq<u8>) {
        (self.status, self.content_type@, self.body@)
    }
}

/// A 200 response carrying the page `html`.
pub open spec fn page_reply(html: Seq<char>) -> (u16, Seq<char>, Seq<u8>) {
    (200, "text/html"@, encode_utf8(html))
}

/// The response for the asset at `path` among `entries`: 200 with its MIME
/// type and bytes, or 404 with a plain-text `Not found`.
pub open spec fn asset_reply(entries: Seq<(Seq<char>, Seq<u8>)>, path: Seq<char>) -> (
    u16,
    Seq<char>,
    Seq<u8>,
) {
    match asset_at(entries, path) {
        Some(d) => (200, mime_of(path), d),
        None => (404, "text/plain"@, encode_utf8("Not found"@)),
    }
}

/// The path at which the script for a page at `path` is served.
pub open spec fn script_path(path: Seq<char>) -> Seq<char> {
    path + "/"@ + SCRIPT_ASSET@
}

fn html_response(html: String) -> (r: HttpResponse)
    ensures
        r@ == page_reply(html@),
{
    HttpResponse {
        status: 200,
        content_type: String::from_str("text/html"),
        body: utf8_bytes(html.as_str()),
    }
}

/// A 200 `text/html` response holding the page for `config`.
pub fn scalar_response(config: &serde_json::Value, js_bundle_url: Option<&str>) -> (r: HttpResponse)
    ensures
        r@ == page_reply(html_for(*config, text_of(js_bundle_url))),
{
    html_response(scalar_html(config, js_bundle_url))
}

/// A 200 `text/html` response holding the page for the configuration text
/// `config_json`; fails where the text is not JSON.
pub fn scalar_response_from_json(config_json: &str, js_bundle_url: Option<&str>) -> (r: Result<
    HttpResponse,
    ConfigParseError,
>)
    ensures
        match html_from_json_text(config_json@, text_of(js_bundle_url)) {
            Some(h) => r is Ok && r->Ok_0@ == page_reply(h),
            None => r is Err,
        },
{
    match scalar_html_from_json(config_json, js_bundle_url) {
        Ok(html) => Ok(html_response(html)),
        Err(e) => Err(e),
    }
}

/// The response serving the asset at `path` of `store`: 200 with its MIME
/// type and bytes, or 404 `text/plain` `Not found` when there is none.
pub fn asset_response(store: &AssetStore, path: &str) -> (r: HttpResponse)
    ensures
        r@ == asset_reply(store.entries(), path@),
{
    match store.get_with_mime(path) {
        Some((mime_type, content)) => HttpResponse { status: 200, content_type: mime_type, body: content },
        None => HttpResponse {
            status: 404,
            content_type: String::from_str("text/plain"),
            body: utf8_bytes("Not found"),
        },
    }
}

/// The two routes of a mounted viewer: the page at `page_path`, and the
/// script it loads at `asset_path`. The configuration is held as its JSON
/// text, fixed when the routes are made.
pub struct ScalarRoutes {
    page_path: String,
    asset_path: String,
    config_json: String,
    assets: AssetStore,
}

impl ScalarRoutes {
    /// The path of the page.
    pub closed spec fn page_path_text(&self) -> Seq<char> {
        self.page_path@
    }

    /// The path of the script.
    pub closed spec fn asset_path_text(&self) -> Seq<char> {
        self.asset_path@
    }

    /// The configuration's JSON text, as the page embeds it.
    pub closed spec fn config_text(&self) -> Seq<char> {
        self.config_json@
    }

    /// The assets that the script route serves from.
    pub closed spec fn asset_entries(&self) -> Seq<(Seq<char>, Seq<u8>)> {
        self.assets.entries()
    }

    /// The path at which the page is served.
    pub fn page_path(&self) -> (r: &str)
        ensures
            r@ == self.page_path_text(),
    {
        self.page_path.as_str()
    }

    /// The path at which the script is served.
    pub fn asset_path(&self) -> (r: &str)
        ensures
            r@ == self.asset_path_text(),
    {
        self.asset_path.as_str()
    }

    /// Answers `GET request_path`: the page at the page path, the script at
    /// the asset path, and `None` for any other path.
    pub fn get(&self, request_path: &str) -> (r: Option<HttpResponse>)
        ensures
            request_path@ == self.page_path_text() ==> r is Some && r->0@ == page_reply(
                rendered_page(self.config_text(), Some(self.asset_path_text())),
            ),
            request_path@ != self.page_path_text() && request_path@ == self.asset_path_text() ==> r is Some
                && r->0@ == asset_reply(self.asset_entries(), SCRIPT_ASSET@),
            request_path@ != self.page_path_text() && request_path@ != self.asset_path_text() ==> r is None,
    {
        if same_text(request_path, self.page_path.as_str()) {
            let html = render_scalar(self.config_json.as_str(), Some(self.asset_path.as_str()));
            Some(html_response(html))
        } else if same_text(request_path, self.asset_path.as_str()) {
            Some(asset_response(&self.assets, SCRIPT_ASSET))
        } else {
            None
        }
    }
}

/// Mounts the viewer at `path`: the page there, configured with `config`, and
/// the built-in script at `path` followed by `/scalar.js`.
pub fn routes(path: &str, config: &serde_json::Value) -> (r: ScalarRoutes)
    ensures
        r.page_path_text() == path@,
        r.asset_path_text() == script_path(path@),
        r.config_text() == json_text_of(*config),
        r.asset_entries() == embedded_assets(),
{
    let mut asset_path = String::from_str(path);
    asset_path.append("/");
    asset_path.append(SCRIPT_ASSET);
    ScalarRoutes {
        page_path: String::from_str(path),
        asset_path,
        config_json: compact_json(config),
        assets: AssetStore::embedded(),
    }
}

} // verus!
