use vstd::prelude::*;
use vstd::string::*;

verus! {

/// Placeholder in the page template where the configuration JSON goes.
pub const CONFIGURATION_TOKEN: &'static str = "__CONFIGURATION__";

/// Placeholder in the page template where the script bundle URL goes.
pub const JS_BUNDLE_URL_TOKEN: &'static str = "__JS_BUNDLE_URL__";

/// Script bundle served from the CDN, used when no local bundle URL is given.
pub const DEFAULT_JS_BUNDLE_URL: &'static str = "https://cdn.jsdelivr.net/npm/@scalar/api-reference";

/// The page template up to the bundle URL placeholder.
pub const TEMPLATE_HEAD: &'static str = "<html lang=\"en\">\n  <head>\n    <title>API Reference</title>\n    <meta charset=\"utf-8\" />\n    <meta name=\"viewport\" content=\"width=device-width, initial-scale=1\" />\n  </head>\n  <body>\n    <div id=\"app\"></div>\n    <script src=\"";

/// The page template between the bundle URL placeholder and the configuration placeholder.
pub const TEMPLATE_MIDDLE: &'static str = "\"></script>\n    <script>\n      window.addEventListener('load', function () {\n        Scalar.createApiReference('#app', ";

/// The page template after the configuration placeholder.
pub const TEMPLATE_TAIL: &'static str = ")\n      })\n    </script>\n  </body>\n</html>";

/// Whether `s` begins with `prefix`.
pub open spec fn begins_with(s: Seq<char>, prefix: Seq<char>) -> bool {
    prefix.len() <= s.len() && s.subrange(0, prefix.len() as int) == prefix
}

/// Whether `part` occurs in `s` as a contiguous run of characters.
pub open spec fn contains(s: Seq<char>, part: Seq<char>) -> bool {
    exists|i: int| 0 <= i && i + part.len() <= s.len() && #[trigger] s.subrange(i, i + part.len()) == part
}

/// Whether `s` ends with `suffix`.
pub open spec fn ends_with(s: Seq<char>, suffix: Seq<char>) -> bool {
    suffix.len() <= s.len() && s.subrange(s.len() - suffix.len(), s.len() as int) == suffix
}

/// `t` with every placeholder replaced, scanning left to right: each
/// configuration placeholder by `config_json`, each bundle URL placeholder by
/// `js_url`. Replaced text is not scanned again.
pub open spec fn substituted(t: Seq<char>, config_json: Seq<char>, js_url: Seq<char>) -> Seq<char>
    decreases t.len(),
{
    if t.len() == 0 {
        Seq::empty()
    } else if CONFIGURATION_TOKEN@.len() > 0 && begins_with(t, CONFIGURATION_TOKEN@) {
        config_json + substituted(t.skip(CONFIGURATION_TOKEN@.len() as int), config_json, js_url)
    } else if JS_BUNDLE_URL_TOKEN@.len() > 0 && begins_with(t, JS_BUNDLE_URL_TOKEN@) {
        js_url + substituted(t.skip(JS_BUNDLE_URL_TOKEN@.len() as int), config_json, js_url)
    } else {
        seq![t[0]] + substituted(t.skip(1), config_json, js_url)
    }
}

/// The page template, the `index.html` asset.
pub open spec fn page_template() -> Seq<char> {
    TEMPLATE_HEAD@ + JS_BUNDLE_URL_TOKEN@ + TEMPLATE_MIDDLE@ + CONFIGURATION_TOKEN@ + TEMPLATE_TAIL@
}

/// The bundle URL that a page loads: the given one, else the CDN's.
pub open spec fn bundle_url_or_default(js_bundle_url: Option<Seq<char>>) -> Seq<char> {
    match js_bundle_url {
        Some(u) => u,
        None => DEFAULT_JS_BUNDLE_URL@,
    }
}

/// The page rendered for configuration text `config_json` and an optional bundle URL.
pub open spec fn rendered_page(config_json: Seq<char>, js_bundle_url: Option<Seq<char>>) -> Seq<char> {
    substituted(page_template(), config_json, bundle_url_or_default(js_bundle_url))
}

/// The characters of an optional string.
pub open spec fn text_of(s: Option<&str>) -> Option<Seq<char>> {
    match s {
        Some(u) => Some(u@),
        None => None,
    }
}

/// Whether `token` begins at position `i` of `t`.
fn token_at(t: &str, n: usize, i: usize, token: &str) -> (r: bool)
    requires
        n == t@.len(),
        i <= n,
    ensures
        r == begins_with(t@.skip(i as int), token@),
{
    let m = token.unicode_len();
    if m > n - i {
        return false;
    }
    let mut k: usize = 0;
    while k < m
        invariant
            n == t@.len(),
            m == token@.len(),
            i + m <= n,
            k <= m,
            forall|j: int| 0 <= j < k ==> t@[i + j] == token@[j],
        decreases m - k,
    {
        if t.get_char(i + k) != token.get_char(k) {
            assert(t@.skip(i as int).subrange(0, m as int)[k as int] == t@[i + k]);
            return false;
        }
        k = k + 1;
    }
    assert(t@.skip(i as int).subrange(0, m as int) =~= token@);
    true
}

proof fn lemma_token_lengths()
    ensures
        CONFIGURATION_TOKEN@.len() == 17,
        JS_BUNDLE_URL_TOKEN@.len() == 17,
        CONFIGURATION_TOKEN@[0] == '_',
        JS_BUNDLE_URL_TOKEN@[0] == '_',
        CONFIGURATION_TOKEN@[2] == 'C',
        JS_BUNDLE_URL_TOKEN@[2] == 'J',
{
    reveal_strlit("__CONFIGURATION__");
    reveal_strlit("__JS_BUNDLE_URL__");
}

/// Replaces, in one pass over `template`, each configuration placeholder by
/// `config_json` and each bundle URL placeholder by `js_url`.
pub fn substitute_placeholders(template: &str, config_json: &str, js_url: &str) -> (r: String)
    ensures
        r@ == substituted(template@, config_json@, js_url@),
{
    proof {
        lemma_token_lengths();
    }
    let ghost t = template@;
    let ghost c = config_json@;
    let ghost u = js_url@;
    let n = template.unicode_len();
    let config_len = CONFIGURATION_TOKEN.unicode_len();
    let url_len = JS_BUNDLE_URL_TOKEN.unicode_len();
    let mut out = String::new();
    let mut start: usize = 0;
    let mut i: usize = 0;
    assert(t.skip(0) =~= t);
    while i < n
        invariant
            t == template@,
            c == config_json@,
            u == js_url@,
            n == t.len(),
            config_len == CONFIGURATION_TOKEN@.len(),
            url_len == JS_BUNDLE_URL_TOKEN@.len(),
            CONFIGURATION_TOKEN@.len() == 17,
            JS_BUNDLE_URL_TOKEN@.len() == 17,
            start <= i <= n,
            out@ + t.subrange(start as int, i as int) + substituted(t.skip(i as int), c, u)
                == substituted(t, c, u),
        decreases n - i,
    {
        let ghost rest = t.skip(i as int);
        let ghost before = out@ + t.subrange(start as int, i as int);
        if token_at(template, n, i, CONFIGURATION_TOKEN) {
            let piece = template.substring_char(start, i);
            out.append(piece);
            out.append(config_json);
            assert(rest.skip(17) =~= t.skip(i + 17));
            assert(out@ =~= before + c);
            assert(before + substituted(rest, c, u) =~= out@ + substituted(t.skip(i + 17), c, u));
            i = i + config_len;
            start = i;
            assert(t.subrange(start as int, i as int) =~= Seq::<char>::empty());
        } else if token_at(template, n, i, JS_BUNDLE_URL_TOKEN) {
            let piece = template.substring_char(start, i);
            out.append(piece);
            out.append(js_url);
            assert(rest.skip(17) =~= t.skip(i + 17));
            assert(out@ =~= before + u);
            assert(before + substituted(rest, c, u) =~= out@ + substituted(t.skip(i + 17), c, u));
            i = i + url_len;
            start = i;
            assert(t.subrange(start as int, i as int) =~= Seq::<char>::empty());
        } else {
            assert(rest.skip(1) =~= t.skip(i + 1));
            assert(t.subrange(start as int, i as int) + seq![t[i as int]] =~= t.subrange(
                start as int,
                i + 1,
            ));
            assert(before + substituted(rest, c, u) =~= out@ + t.subrange(start as int, i + 1)
                + substituted(t.skip(i + 1), c, u));
            i = i + 1;
        }
    }
    let piece = template.substring_char(start, n);
    out.append(piece);
    assert(t.skip(n as int) =~= Seq::<char>::empty());
    assert(out@ =~= substituted(t, c, u));
    out
}

/// The page template text, served as the `index.html` asset.
pub fn index_html() -> (r: String)
    ensures
        r@ == page_template(),
{
    let mut t = String::from_str(TEMPLATE_HEAD);
    t.append(JS_BUNDLE_URL_TOKEN);
    t.append(TEMPLATE_MIDDLE);
    t.append(CONFIGURATION_TOKEN);
    t.append(TEMPLATE_TAIL);
    t
}

/// Renders the page: the template with `config_json` in place of the
/// configuration placeholder and `js_bundle_url`, or the CDN's URL when it is
/// absent, in place of the bundle URL placeholder.
pub fn render_scalar(config_json: &str, js_bundle_url: Option<&str>) -> (r: String)
    ensures
        r@ == rendered_page(config_json@, text_of(js_bundle_url)),
{
    let template = index_html();
    let js_url = match js_bundle_url {
        Some(u) => u,
        None => DEFAULT_JS_BUNDLE_URL,
    };
    substitute_placeholders(template.as_str(), config_json, js_url)
}

/// Text without `_` passes through substitution unchanged.
proof fn lemma_plain_prefix(p: Seq<char>, r: Seq<char>, c: Seq<char>, u: Seq<char>)
    requires
        forall|k: int| 0 <= k < p.len() ==> p[k] != '_',
    ensures
        substituted(p + r, c, u) == p + substituted(r, c, u),
    decreases p.len(),
{
    lemma_token_lengths();
    if p.len() == 0 {
        assert(p + r =~= r);
        assert(p + substituted(r, c, u) =~= substituted(r, c, u));
    } else {
        let t = p + r;
        assert(t[0] == p[0]);
        if begins_with(t, CONFIGURATION_TOKEN@) {
            assert(t.subrange(0, 17)[0] == t[0]);
        }
        if begins_with(t, JS_BUNDLE_URL_TOKEN@) {
            assert(t.subrange(0, 17)[0] == t[0]);
        }
        assert(t.skip(1) =~= p.skip(1) + r);
        lemma_plain_prefix(p.skip(1), r, c, u);
        assert(p + substituted(r, c, u) =~= seq![p[0]] + (p.skip(1) + substituted(r, c, u)));
    }
}

/// A leading placeholder is replaced by its text.
proof fn lemma_token_prefix(r: Seq<char>, c: Seq<char>, u: Seq<char>)
    ensures
        substituted(CONFIGURATION_TOKEN@ + r, c, u) == c + substituted(r, c, u),
        substituted(JS_BUNDLE_URL_TOKEN@ + r, c, u) == u + substituted(r, c, u),
{
    lemma_token_lengths();
    let tc = CONFIGURATION_TOKEN@ + r;
    assert(tc.subrange(0, 17) =~= CONFIGURATION_TOKEN@);
    assert(tc.skip(17) =~= r);
    let tj = JS_BUNDLE_URL_TOKEN@ + r;
    assert(tj.subrange(0, 17) =~= JS_BUNDLE_URL_TOKEN@);
    assert(tj.subrange(0, 17)[2] == 'J');
    assert(tj.skip(17) =~= r);
}

proof fn lemma_template_pieces_plain()
    ensures
        forall|k: int| 0 <= k < TEMPLATE_HEAD@.len() ==> TEMPLATE_HEAD@[k] != '_',
        forall|k: int| 0 <= k < TEMPLATE_MIDDLE@.len() ==> TEMPLATE_MIDDLE@[k] != '_',
        forall|k: int| 0 <= k < TEMPLATE_TAIL@.len() ==> TEMPLATE_TAIL@[k] != '_',
        "<html"@.len() == 5,
        "</html>"@.len() == 7,
        begins_with(TEMPLATE_HEAD@, "<html"@),
        TEMPLATE_TAIL@.len() >= 7,
        TEMPLATE_TAIL@.subrange(TEMPLATE_TAIL@.len() - 7, TEMPLATE_TAIL@.len() as int) == "</html>"@,
{
    reveal_strlit("<html lang=\"en\">\n  <head>\n    <title>API Reference</title>\n    <meta charset=\"utf-8\" />\n    <meta name=\"viewport\" content=\"width=device-width, initial-scale=1\" />\n  </head>\n  <body>\n    <div id=\"app\"></div>\n    <script src=\"");
    reveal_strlit("\"></script>\n    <script>\n      window.addEventListener('load', function () {\n        Scalar.createApiReference('#app', ");
    reveal_strlit(")\n      })\n    </script>\n  </body>\n</html>");
    reveal_strlit("<html");
    reveal_strlit("</html>");
    assert(TEMPLATE_HEAD@.subrange(0, 5) =~= "<html"@);
    assert(TEMPLATE_TAIL@.subrange(TEMPLATE_TAIL@.len() - 7, TEMPLATE_TAIL@.len() as int) =~= "</html>"@);
}

/// The rendered page is the template's text around the bundle URL (or the
/// CDN's) and the configuration text, in that order.
pub proof fn lemma_page_layout(config_json: Seq<char>, js_bundle_url: Option<Seq<char>>)
    ensures
        rendered_page(config_json, js_bundle_url) == TEMPLATE_HEAD@ + bundle_url_or_default(
            js_bundle_url,
        ) + TEMPLATE_MIDDLE@ + config_json + TEMPLATE_TAIL@,
{
    lemma_template_pieces_plain();
    let c = config_json;
    let u = bundle_url_or_default(js_bundle_url);
    let tail = TEMPLATE_TAIL@;
    let mid = TEMPLATE_MIDDLE@;
    let empty = Seq::<char>::empty();
    lemma_plain_prefix(tail, empty, c, u);
    assert(tail + empty =~= tail);
    assert(substituted(empty, c, u) =~= empty);
    lemma_token_prefix(tail, c, u);
    lemma_plain_prefix(mid, CONFIGURATION_TOKEN@ + tail, c, u);
    lemma_token_prefix(mid + CONFIGURATION_TOKEN@ + tail, c, u);
    lemma_plain_prefix(
        TEMPLATE_HEAD@,
        JS_BUNDLE_URL_TOKEN@ + (mid + CONFIGURATION_TOKEN@ + tail),
        c,
        u,
    );
    assert(page_template() =~= TEMPLATE_HEAD@ + (JS_BUNDLE_URL_TOKEN@ + (mid + CONFIGURATION_TOKEN@
        + tail)));
    assert(mid + CONFIGURATION_TOKEN@ + tail =~= mid + (CONFIGURATION_TOKEN@ + tail));
    assert(TEMPLATE_HEAD@ + (u + (mid + (c + tail))) =~= TEMPLATE_HEAD@ + u + mid + c + tail);
}

/// Every rendered page holds the configuration text exactly, holds the bundle
/// URL given (or the CDN's when none is), begins with `<html` and ends with
/// `</html>`.
pub proof fn lemma_page_contents(config_json: Seq<char>, js_bundle_url: Option<Seq<char>>)
    ensures
        contains(rendered_page(config_json, js_bundle_url), config_json),
        contains(rendered_page(config_json, js_bundle_url), bundle_url_or_default(js_bundle_url)),
        begins_with(rendered_page(config_json, js_bundle_url), "<html"@),
        ends_with(rendered_page(config_json, js_bundle_url), "</html>"@),
{
    lemma_page_layout(config_json, js_bundle_url);
    lemma_template_pieces_plain();
    let page = rendered_page(config_json, js_bundle_url);
    let h = TEMPLATE_HEAD@;
    let u = bundle_url_or_default(js_bundle_url);
    let m = TEMPLATE_MIDDLE@;
    let c = config_json;
    let t = TEMPLATE_TAIL@;
    let at_c = (h.len() + u.len() + m.len()) as int;
    assert(page.subrange(at_c, at_c + c.len()) =~= c);
    assert(page.subrange(h.len() as int, (h.len() + u.len()) as int) =~= u);
    assert(page.subrange(0, 5) =~= h.subrange(0, 5));
    assert(page.subrange(page.len() - 7, page.len() as int) =~= t.subrange(
        t.len() - 7,
        t.len() as int,
    ));
}

} // verus!
