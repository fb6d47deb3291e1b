use scalar_api_reference::render::{
    substitute_placeholders, DEFAULT_JS_BUNDLE_URL, TEMPLATE_HEAD, TEMPLATE_MIDDLE, TEMPLATE_TAIL,
};
use scalar_api_reference::{
    render_scalar, scalar_html, scalar_html_default, scalar_html_from_json,
    scalar_html_from_json_default,
};
use serde_json::Value;

fn object(pairs: &[(&str, &str)]) -> Value {
    let mut map = serde_json::Map::new();
    for (k, v) in pairs {
        map.insert(k.to_string(), Value::String(v.to_string()));
    }
    Value::Object(map)
}

#[test]
fn test_scalar_html_generation() {
    let config = object(&[("url", "/openapi.json"), ("theme", "purple")]);

    // Test with custom JS bundle URL
    let html1 = scalar_html(&config, Some("/custom-scalar.js"));
    assert!(html1.contains("/openapi.json"));
    assert!(html1.contains("purple"));
    assert!(html1.contains("/custom-scalar.js"));
    assert!(html1.contains("<html"));
    assert!(html1.contains("</html>"));

    // Test with default CDN URL
    let html2 = scalar_html(&config, None);
    assert!(html2.contains("/openapi.json"));
    assert!(html2.contains("purple"));
    assert!(html2.contains("https://cdn.jsdelivr.net/npm/@scalar/api-reference"));
    assert!(html2.contains("<html"));
    assert!(html2.contains("</html>"));
}

#[test]
fn test_scalar_html_from_json() {
    let config_json = r#"{"url": "/api.json", "theme": "purple"}"#;

    // Test with custom JS bundle URL
    let html1 = scalar_html_from_json(config_json, Some("/bundle.js")).unwrap();
    assert!(html1.contains("/api.json"));
    assert!(html1.contains("purple"));
    assert!(html1.contains("/bundle.js"));

    // Test with default CDN URL
    let html2 = scalar_html_from_json(config_json, None).unwrap();
    assert!(html2.contains("/api.json"));
    assert!(html2.contains("purple"));
    assert!(html2.contains("https://cdn.jsdelivr.net/npm/@scalar/api-reference"));
}

#[test]
fn test_convenience_functions() {
    let config = object(&[("url", "/test.json"), ("theme", "kepler")]);

    // Test scalar_html_default
    let html1 = scalar_html_default(&config);
    assert!(html1.contains("/test.json"));
    assert!(html1.contains("kepler"));
    assert!(html1.contains("https://cdn.jsdelivr.net/npm/@scalar/api-reference"));

    // Test scalar_html_from_json_default
    let config_json = r#"{"url": "/test2.json", "theme": "purple"}"#;
    let html2 = scalar_html_from_json_default(config_json).unwrap();
    assert!(html2.contains("/test2.json"));
    assert!(html2.contains("purple"));
    assert!(html2.contains("https://cdn.jsdelivr.net/npm/@scalar/api-reference"));
}

#[test]
fn test_error_handling() {
    // Test invalid JSON
    let invalid_json = r#"{"url": "/api.json", "theme": "purple""#; // Missing closing brace
    let result = scalar_html_from_json(invalid_json, None);
    assert!(result.is_err());

    // Test empty JSON
    let empty_json = r#"{}"#;
    let result = scalar_html_from_json(empty_json, None);
    assert!(result.is_ok());
    let html = result.unwrap();
    assert!(html.contains("https://cdn.jsdelivr.net/npm/@scalar/api-reference"));
}

#[test]
fn test_edge_cases() {
    // Test empty config
    let empty_config = Value::Object(serde_json::Map::new());
    let html = scalar_html(&empty_config, None);
    assert!(html.contains("https://cdn.jsdelivr.net/npm/@scalar/api-reference"));

    // Test config with special characters
    let special_config = object(&[
        ("url", "/api/v1/test?param=value&other=test"),
        ("theme", "purple"),
        ("description", "API with special chars: <>&\"'"),
    ]);
    let html = scalar_html(&special_config, None);
    assert!(html.contains("/api/v1/test?param=value&other=test"));
    assert!(html.contains("purple"));

    // Test paths with special characters
    let config_with_special_path = object(&[("url", "/api/test"), ("theme", "purple")]);
    let html = scalar_html(&config_with_special_path, Some("/custom/path/scalar.js"));
    assert!(html.contains("/custom/path/scalar.js"));
}

#[test]
fn default_bundle_scenario() {
    let config = object(&[("url", "/openapi.json"), ("theme", "purple")]);
    let html = scalar_html(&config, None);
    assert!(html.contains("/openapi.json"));
    assert!(html.contains("purple"));
    assert!(html.contains(DEFAULT_JS_BUNDLE_URL));
    assert!(!html.contains("__CONFIGURATION__"));
    assert!(!html.contains("__JS_BUNDLE_URL__"));
}

#[test]
fn custom_bundle_scenario() {
    let config = object(&[("url", "/openapi.json"), ("theme", "purple")]);
    let html = scalar_html(&config, Some("/custom-scalar.js"));
    assert!(html.contains("/custom-scalar.js"));
    assert!(!html.contains(DEFAULT_JS_BUNDLE_URL));
    assert!(!html.contains("__CONFIGURATION__"));
    assert!(!html.contains("__JS_BUNDLE_URL__"));
}

#[test]
fn configuration_is_embedded_as_compact_json() {
    let html = scalar_html_from_json(r#"{ "url" : "/api.json",  "theme": "purple" }"#, None).unwrap();
    assert!(html.contains(r#"{"url":"/api.json","theme":"purple"}"#));
    assert!(!html.contains(r#""url" : "/api.json""#));
}

#[test]
fn configuration_keeps_key_order() {
    let html = scalar_html_from_json(r#"{"zeta": 1, "alpha": [true, null]}"#, None).unwrap();
    assert!(html.contains(r#"{"zeta":1,"alpha":[true,null]}"#));
}

#[test]
fn from_json_equals_render_of_parsed_value() {
    let text = r#"{"url": "/openapi.json", "theme": "purple", "layout": {"modern": true}}"#;
    let value: Value = serde_json::from_str(text).unwrap();
    assert_eq!(
        scalar_html_from_json(text, Some("/s.js")).unwrap(),
        scalar_html(&value, Some("/s.js"))
    );
    assert_eq!(scalar_html_from_json_default(text).unwrap(), scalar_html_default(&value));
}

#[test]
fn invalid_json_reports_diagnostic() {
    for bad in ["", "{", "{\"a\":}", "[1,2", "{} trailing", "nul"] {
        let err = scalar_html_from_json(bad, Some("/s.js")).unwrap_err();
        assert!(err.error.is_syntax() || err.error.is_eof());
    }
}

#[test]
fn page_layout_is_exact() {
    let page = render_scalar("{\"a\":1}", Some("/x.js"));
    let expected = format!("{}/x.js{}{{\"a\":1}}{}", TEMPLATE_HEAD, TEMPLATE_MIDDLE, TEMPLATE_TAIL);
    assert_eq!(page, expected);

    let page = render_scalar("{}", None);
    let expected = format!("{}{}{}{{}}{}", TEMPLATE_HEAD, DEFAULT_JS_BUNDLE_URL, TEMPLATE_MIDDLE, TEMPLATE_TAIL);
    assert_eq!(page, expected);
}

#[test]
fn placeholders_inside_configuration_are_kept() {
    let config = object(&[("note", "__JS_BUNDLE_URL__ and __CONFIGURATION__")]);
    let html = scalar_html(&config, Some("/s.js"));
    assert!(html.contains(r#"{"note":"__JS_BUNDLE_URL__ and __CONFIGURATION__"}"#));
    assert!(html.starts_with("<html"));
    assert!(html.ends_with("</html>"));
}

#[test]
fn substitution_replaces_every_placeholder_once() {
    assert_eq!(
        substitute_placeholders("a__CONFIGURATION__b__JS_BUNDLE_URL__c__CONFIGURATION__", "X", "Y"),
        "aXbYcX"
    );
    assert_eq!(substitute_placeholders("__CONFIG", "X", "Y"), "__CONFIG");
    assert_eq!(substitute_placeholders("", "X", "Y"), "");
    assert_eq!(
        substitute_placeholders("___CONFIGURATION__", "__JS_BUNDLE_URL__", "Y"),
        "___JS_BUNDLE_URL__"
    );
    assert_eq!(substitute_placeholders("__CONFIGURATION__", "__JS_BUNDLE_URL__", "Y"), "__JS_BUNDLE_URL__");
    assert_eq!(substitute_placeholders("é__JS_BUNDLE_URL__ü", "X", "ß"), "éßü");
}
