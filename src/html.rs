use vstd::prelude::*;

use crate::json::{compact_json, json_text_of, parse_json, reparsed_json, ConfigParseError};
use crate::render::{
    bundle_url_or_default, contains, begins_with, ends_with, lemma_page_contents, render_scalar,
    rendered_page, text_of,
};

verus! {

/// The page rendered for configuration `config`: its compact JSON text in the template.
pub open spec fn html_for(config: serde_json::Value, js_bundle_url: Option<Seq<char>>) -> Seq<char> {
    rendered_page(json_text_of(config), js_bundle_url)
}

/// The page rendered for configuration text `text`, or `None` when it is not JSON.
pub open spec fn html_from_json_text(text: Seq<char>, js_bundle_url: Option<Seq<char>>) -> Option<
    Seq<char>,
> {
    match reparsed_json(text) {
        Some(c) => Some(rendered_page(c, js_bundle_url)),
        None => None,
    }
}

/// The page with `config` serialized into it, loading the script from
/// `js_bundle_url`, or from the CDN when it is `None`.
pub fn scalar_html(config: &serde_json::Value, js_bundle_url: Option<&str>) -> (r: String)
    ensures
        r@ == html_for(*config, text_of(js_bundle_url)),
{
    let config_json = compact_json(config);
    render_scalar(config_json.as_str(), js_bundle_url)
}

/// The page with `config` serialized into it, loading the script from the CDN.
pub fn scalar_html_default(config: &serde_json::Value) -> (r: String)
    ensures
        r@ == html_for(*config, None),
{
    scalar_html(config, None)
}

/// Parses `config_json`, then renders the page for the value read; fails,
/// rendering nothing, where the text is not JSON.
pub fn scalar_html_from_json(config_json: &str, js_bundle_url: Option<&str>) -> (r: Result<
    String,
    ConfigParseError,
>)
    ensures
        match r {
            Ok(h) => html_from_json_text(config_json@, text_of(js_bundle_url)) == Some(h@),
            Err(_) => html_from_json_text(config_json@, text_of(js_bundle_url)) is None,
        },
{
    match parse_json(config_json) {
        Ok(config) => Ok(scalar_html(&config, js_bundle_url)),
        Err(error) => Err(ConfigParseError { error }),
    }
}

/// `scalar_html_from_json` with the script loaded from the CDN.
pub fn scalar_html_from_json_default(config_json: &str) -> (r: Result<String, ConfigParseError>)
    ensures
        match r {
            Ok(h) => html_from_json_text(config_json@, None) == Some(h@),
            Err(_) => html_from_json_text(config_json@, None) is None,
        },
{
    scalar_html_from_json(config_json, None)
}

/// The page for a configuration holds its compact JSON text exactly, holds the
/// bundle URL given (or the CDN's when none is), begins with `<html` and ends
/// with `</html>`.
pub proof fn lemma_html_contents(config: serde_json::Value, js_bundle_url: Option<Seq<char>>)
    ensures
        contains(html_for(config, js_bundle_url), json_text_of(config)),
        contains(html_for(config, js_bundle_url), bundle_url_or_default(js_bundle_url)),
        begins_with(html_for(config, js_bundle_url), "<html"@),
        ends_with(html_for(config, js_bundle_url), "</html>"@),
{
    lemma_page_contents(json_text_of(config), js_bundle_url);
}

/// Rendering from JSON text gives the page of the value that the text reads as.
pub proof fn lemma_from_json_renders_parsed(
    text: Seq<char>,
    config: serde_json::Value,
    js_bundle_url: Option<Seq<char>>,
)
    requires
        reparsed_json(text) == Some(json_text_of(config)),
    ensures
        html_from_json_text(text, js_bundle_url) == Some(html_for(config, js_bundle_url)),
{
}

/// Text that is not JSON renders no page.
pub proof fn lemma_invalid_json_renders_nothing(text: Seq<char>, js_bundle_url: Option<Seq<char>>)
    requires
        reparsed_json(text) is None,
    ensures
        html_from_json_text(text, js_bundle_url) is None,
{
}

} // verus!
