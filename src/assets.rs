use vstd::prelude::*;
use vstd::string::*;
use vstd::utf8::*;

use crate::mime::{
    extension_of, get_mime_type, is_known_extension, lemma_unknown_extension_is_octet_stream, mime_of,
};
use crate::render::{index_html, page_template};
use crate::text::{same_text, utf8_bytes};

verus! {

/// Script served as `scalar.js`: it loads the viewer's bundle from the CDN.
pub const SCRIPT_BUNDLE: &'static str = "(function () {\n  var script = document.createElement('script');\n  script.src = 'https://cdn.jsdelivr.net/npm/@scalar/api-reference';\n  document.head.appendChild(script);\n})();\n";

/// A file served verbatim: its relative path and its bytes.
pub struct Asset {
    pub path: String,
    pub data: Vec<u8>,
}

/// A read-only table of assets, looked up by exact path.
pub struct AssetStore {
    assets: Vec<Asset>,
}

/// The content stored under `path` in `entries`: that of the first entry with
/// that path, if any.
pub open spec fn asset_at(entries: Seq<(Seq<char>, Seq<u8>)>, path: Seq<char>) -> Option<Seq<u8>>
    decreases entries.len(),
{
    if entries.len() == 0 {
        None
    } else if entries[0].0 == path {
        Some(entries[0].1)
    } else {
        asset_at(entries.skip(1), path)
    }
}

/// The assets built into the library: the page template and the script.
pub open spec fn embedded_assets() -> Seq<(Seq<char>, Seq<u8>)> {
    seq![
        ("index.html"@, encode_utf8(page_template())),
        ("scalar.js"@, encode_utf8(SCRIPT_BUNDLE@)),
    ]
}

/// The bytes of an optional byte vector.
pub open spec fn bytes_of(v: Option<Vec<u8>>) -> Option<Seq<u8>> {
    match v {
        Some(d) => Some(d@),
        None => None,
    }
}

/// An asset's bytes paired with its MIME type, as `get_asset_with_mime` gives them.
pub open spec fn with_mime(path: Seq<char>, content: Option<Seq<u8>>) -> Option<(Seq<char>, Seq<u8>)> {
    match content {
        Some(d) => Some((mime_of(path), d)),
        None => None,
    }
}

/// The MIME type and bytes of an optional pair.
pub open spec fn typed_bytes_of(v: Option<(String, Vec<u8>)>) -> Option<(Seq<char>, Seq<u8>)> {
    match v {
        Some(p) => Some((p.0@, p.1@)),
        None => None,
    }
}

fn copy_bytes(v: &Vec<u8>) -> (r: Vec<u8>)
    ensures
        r@ == v@,
{
    vstd::slice::slice_to_vec(v.as_slice())
}

impl AssetStore {
    /// The entries, in order, as paths and contents.
    pub closed spec fn entries(&self) -> Seq<(Seq<char>, Seq<u8>)> {
        self.assets@.map_values(|a: Asset| (a.path@, a.data@))
    }

    /// A store that holds `assets`; a lookup finds the first with a path.
    pub fn new(assets: Vec<Asset>) -> (r: AssetStore)
        ensures
            r.entries() == assets@.map_values(|a: Asset| (a.path@, a.data@)),
    {
        AssetStore { assets }
    }

    /// The assets built into the library: `index.html`, the page template,
    /// and `scalar.js`, the script that the page loads.
    pub fn embedded() -> (r: AssetStore)
        ensures
            r.entries() == embedded_assets(),
    {
        let template = index_html();
        let mut assets: Vec<Asset> = Vec::new();
        assets.push(Asset { path: String::from_str("index.html"), data: utf8_bytes(template.as_str()) });
        assets.push(Asset { path: String::from_str("scalar.js"), data: utf8_bytes(SCRIPT_BUNDLE) });
        let r = AssetStore { assets };
        assert(r.entries() =~= embedded_assets());
        r
    }

    /// The content stored at exactly `path`, or `None` when there is none.
    pub fn get(&self, path: &str) -> (r: Option<Vec<u8>>)
        ensures
            bytes_of(r) == asset_at(self.entries(), path@),
    {
        let ghost entries = self.entries();
        let n = self.assets.len();
        let mut i: usize = 0;
        assert(entries.skip(0) =~= entries);
        while i < n
            invariant
                entries == self.entries(),
                n == entries.len(),
                i <= n,
                asset_at(entries.skip(i as int), path@) == asset_at(entries, path@),
            decreases n - i,
        {
            let asset = &self.assets[i];
            assert(entries.skip(i as int)[0] == (asset.path@, asset.data@));
            if same_text(asset.path.as_str(), path) {
                return Some(copy_bytes(&asset.data));
            }
            assert(entries.skip(i as int).skip(1) =~= entries.skip(i + 1));
            i = i + 1;
        }
        None
    }

    /// The content stored at exactly `path` with the MIME type of its extension.
    pub fn get_with_mime(&self, path: &str) -> (r: Option<(String, Vec<u8>)>)
        ensures
            typed_bytes_of(r) == with_mime(path@, asset_at(self.entries(), path@)),
    {
        match self.get(path) {
            Some(content) => Some((get_mime_type(path), content)),
            None => None,
        }
    }
}

/// An asset found at a path whose extension is missing or not in the MIME
/// table is served as `application/octet-stream`, with its bytes.
pub proof fn lemma_unknown_extension_served_as_octet_stream(
    entries: Seq<(Seq<char>, Seq<u8>)>,
    path: Seq<char>,
)
    requires
        asset_at(entries, path) is Some,
        !is_known_extension(extension_of(path)),
    ensures
        with_mime(path, asset_at(entries, path)) == Some(
            ("application/octet-stream"@, asset_at(entries, path)->0),
        ),
{
    lemma_unknown_extension_is_octet_stream(path);
}

/// The content of the built-in asset at exactly `path`, if there is one.
pub fn get_asset(path: &str) -> (r: Option<Vec<u8>>)
    ensures
        bytes_of(r) == asset_at(embedded_assets(), path@),
{
    AssetStore::embedded().get(path)
}

/// The built-in asset at exactly `path` with the MIME type of its extension.
pub fn get_asset_with_mime(path: &str) -> (r: Option<(String, Vec<u8>)>)
    ensures
        typed_bytes_of(r) == with_mime(path@, asset_at(embedded_assets(), path@)),
{
    AssetStore::embedded().get_with_mime(path)
}

} // verus!
