use scalar_api_reference::config::{AgentOptions, Source};

#[test]
fn agent_options_with_key() {
    let a = AgentOptions::with_key("secret");
    assert_eq!(a.key.as_deref(), Some("secret"));
    assert_eq!(a.disabled, None);
}

#[test]
fn agent_options_disabled() {
    let a = AgentOptions::disabled();
    assert_eq!(a.key, None);
    assert_eq!(a.disabled, Some(true));
    assert_eq!(AgentOptions::default(), AgentOptions { key: None, disabled: None });
}

#[test]
fn source_new_and_with_agent() {
    let s = Source::new("/openapi.json");
    assert_eq!(s.url, "/openapi.json");
    assert_eq!(s.agent, None);
    let s = s.with_agent(AgentOptions::disabled());
    assert_eq!(s.url, "/openapi.json");
    assert_eq!(s.agent, Some(AgentOptions::disabled()));
}
