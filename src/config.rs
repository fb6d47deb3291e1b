//! Configuration values for the viewer, built in code.

use vstd::prelude::*;
use vstd::std_specs::convert::IntoSpec;

verus! {

/// Options of the viewer's AI chat, for all documents or for one.
#[derive(Debug, Clone, Default, PartialEq, Eq)]
pub struct AgentOptions {
    /// API key of the chat service; needed in production.
    pub key: Option<String>,
    /// When `Some(true)`, turns the chat off where these options apply.
    pub disabled: Option<bool>,
}

impl AgentOptions {
    /// Options that set the chat's API key and nothing else.
    pub fn with_key<K: Into<String>>(key: K) -> (r: Self)
        ensures
            r.key is Some,
            K::obeys_into_spec() ==> r.key == Some(key.into_spec()),
            r.disabled is None,
    {
        AgentOptions { key: Some(key.into()), disabled: None }
    }

    /// Options that turn the chat off.
    pub fn disabled() -> (r: Self)
        ensures
            r.key is None,
            r.disabled == Some(true),
    {
        AgentOptions { key: None, disabled: Some(true) }
    }
}

/// One API description document that the viewer shows.
#[derive(Debug, Clone, PartialEq, Eq)]
pub struct Source {
    /// URL of the document.
    pub url: String,
    /// Chat options for this document alone.
    pub agent: Option<AgentOptions>,
}

impl Source {
    /// A source at `url`, with no chat options of its own.
    pub fn new<U: Into<String>>(url: U) -> (r: Self)
        ensures
            U::obeys_into_spec() ==> r.url == url.into_spec(),
            r.agent is None,
    {
        Source { url: url.into(), agent: None }
    }

    /// This source with its chat options set to `agent`.
    pub fn with_agent(self, agent: AgentOptions) -> (r: Self)
        ensures
            r.url == self.url,
            r.agent == Some(agent),
    {
        let mut s = self;
        s.agent = Some(agent);
        s
    }
}

} // verus!
