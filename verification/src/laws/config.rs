//! What comes of calls on configurations.

use vstd::prelude::*;

use crate::config::{clone_opt_text, clone_texts, ClusterConfig};

verus! {

/// A configuration of which nothing has been set enables nothing.
pub proof fn law_default_configuration_is_unset(config: ClusterConfig)
    requires
        call_ensures(ClusterConfig::default, (), config),
    ensures
        !config.enabled,
        config.node_name is None,
        config.static_role is None,
        config.bind_host@.len() == 0,
        config.bind_port == 0,
        config.node_token is None,
        config.capabilities.len() == 0,
        config.peers.len() == 0,
        !config.discovery_enabled,
        config.discovery_port is None,
        config.discovery_interval_secs == 0,
        config.heartbeat_interval_secs == 0,
{
    assert(config.capabilities.deep_view().len() == config.capabilities.len());
    assert(config.peers.deep_view().len() == config.peers.len());
}

/// A copy of a configuration is the same in everything.
pub proof fn law_clone_of_a_configuration_is_the_same(config: ClusterConfig, copy: ClusterConfig)
    requires
        call_ensures(ClusterConfig::clone, (&config,), copy),
    ensures
        copy.enabled == config.enabled,
        copy.node_name.deep_view() == config.node_name.deep_view(),
        copy.static_role == config.static_role,
        copy.bind_host@ == config.bind_host@,
        copy.bind_port == config.bind_port,
        copy.node_token.deep_view() == config.node_token.deep_view(),
        copy.capabilities.deep_view() == config.capabilities.deep_view(),
        copy.peers.deep_view() == config.peers.deep_view(),
        copy.discovery_enabled == config.discovery_enabled,
        copy.discovery_port == config.discovery_port,
        copy.discovery_interval_secs == config.discovery_interval_secs,
        copy.heartbeat_interval_secs == config.heartbeat_interval_secs,
{
}

/// Copies of texts have the same characters, in the same places.
pub proof fn law_clones_of_texts_are_the_same(
    texts: Vec<String>,
    copies: Vec<String>,
    text: Option<String>,
    copy: Option<String>,
)
    requires
        call_ensures(clone_texts, (&texts,), copies),
        call_ensures(clone_opt_text, (&text,), copy),
    ensures
        copies.len() == texts.len(),
        forall|i: int| 0 <= i < texts.len() ==> (#[trigger] copies[i])@ == texts[i]@,
        copy is Some <==> text is Some,
        copy matches Some(copy) ==> text matches Some(text) && copy@ == text@,
{
    assert(copies.deep_view().len() == copies.len());
    assert(texts.deep_view().len() == texts.len());
    assert forall|i: int| 0 <= i < texts.len() implies (#[trigger] copies[i])@ == texts[i]@ by {
        assert(copies.deep_view()[i] == texts.deep_view()[i]);
    }
}

} // verus!
