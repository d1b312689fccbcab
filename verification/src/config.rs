use crate::broker::{client_config_entries, set_parameter};
use crate::decimal::{decimal, decimal_string};
use rdkafka::config::ClientConfig;
use vstd::prelude::*;

verus! {

/// Settings of one source that reads a set of topics as a member of a consumer group.
#[derive(Debug, Clone)]
pub struct KafkaSourceConfig {
    /// Broker addresses, as a comma-separated list of `host` or `host:port`.
    pub bootstrap_servers: String,
    /// Topics to subscribe to.
    pub topics: Vec<String>,
    /// Consumer group that the source joins.
    pub group_id: String,
    /// Where to start reading a partition for which the group has no committed offset.
    pub auto_offset_reset: String,
    /// Time after which the group coordinator declares a silent member dead.
    pub session_timeout_ms: u64,
    /// Reserved; nothing in this crate reads it.
    pub host_key: Option<String>,
    /// Name of the event field that receives the message key, if any.
    pub key_field: Option<String>,
}

/// Session timeout, in milliseconds, of a configuration that names none.
pub fn default_session_timeout_ms() -> (timeout: u64)
    ensures
        timeout == 10000,
{
    10000
}

/// Offset-reset policy of a configuration that names none.
pub fn default_auto_offset_reset() -> (policy: String)
    ensures
        policy@ == "largest"@,
{
    "largest".to_owned()
}

/// The parameters that a source with this configuration hands to the broker client. The
/// first four come from the configuration as they stand. The others are fixed: the
/// client signals no end of partition and commits no offset on its own, and it names
/// itself with one constant identifier.
pub open spec fn client_parameters(config: KafkaSourceConfig) -> Map<Seq<char>, Seq<char>> {
    Map::empty().insert("group.id"@, config.group_id@).insert(
        "bootstrap.servers"@,
        config.bootstrap_servers@,
    ).insert("auto.offset.reset"@, config.auto_offset_reset@).insert(
        "session.timeout.ms"@,
        decimal(config.session_timeout_ms as nat),
    ).insert("enable.partition.eof"@, "false"@).insert("enable.auto.commit"@, "false"@).insert(
        "client.id"@,
        "vector"@,
    )
}

/// Builds the client configuration of a source.
pub fn client_config(config: &KafkaSourceConfig) -> (client: ClientConfig)
    ensures
        client_config_entries(client) == client_parameters(*config),
{
    let mut client = ClientConfig::new();
    set_parameter(&mut client, "group.id", config.group_id.as_str());
    set_parameter(&mut client, "bootstrap.servers", config.bootstrap_servers.as_str());
    set_parameter(&mut client, "auto.offset.reset", config.auto_offset_reset.as_str());
    let timeout = decimal_string(config.session_timeout_ms);
    set_parameter(&mut client, "session.timeout.ms", timeout.as_str());
    set_parameter(&mut client, "enable.partition.eof", "false");
    set_parameter(&mut client, "enable.auto.commit", "false");
    set_parameter(&mut client, "client.id", "vector");
    client
}

} // verus!
