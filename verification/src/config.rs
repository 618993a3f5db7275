//! Configuration of the persistence layer, consumed as opaque settings by
//! the surrounding service. Only its validation rule is the core's own
//! logic; reading the values from the process environment happens outside
//! the verified library.

use vstd::prelude::*;

verus! {

/// Connection settings for the key/value persistence cluster.
#[derive(Debug, Clone)]
pub struct ScyllaConfig {
    /// Node addresses to contact.
    pub nodes: Vec<String>,
    /// Keyspace name.
    pub keyspace: String,
    /// Username for authentication.
    pub username: String,
    /// Password for authentication.
    pub password: String,
    /// Connection timeout in milliseconds.
    pub connection_timeout_ms: u64,
    /// Request timeout in milliseconds.
    pub request_timeout_ms: u64,
    /// Maximum number of connections per node.
    pub max_connections_per_node: usize,
    /// Connection pool size.
    pub pool_size: usize,
    /// Whether to use compression.
    pub use_compression: bool,
    /// Consistency level for reads.
    pub read_consistency: String,
    /// Consistency level for writes.
    pub write_consistency: String,
    /// Retry policy for the persistence layer (beneath, and distinct
    /// from, the relayer batch retry semantics).
    pub retry_policy: RetryPolicyConfig,
    /// Load balancing policy name.
    pub load_balancing_policy: String,
}

/// Retry policy settings for the persistence layer.
#[derive(Debug, Clone)]
pub struct RetryPolicyConfig {
    /// Maximum number of retries.
    pub max_retries: u32,
    /// Base delay between retries in milliseconds.
    pub base_delay_ms: u64,
    /// Maximum delay between retries in milliseconds.
    pub max_delay_ms: u64,
    /// Whether to use exponential backoff.
    pub exponential_backoff: bool,
}

/// The consistency levels the persistence layer accepts.
pub open spec fn consistency_ok(s: Seq<char>) -> bool {
    ||| s == "ANY"@
    ||| s == "ONE"@
    ||| s == "TWO"@
    ||| s == "THREE"@
    ||| s == "QUORUM"@
    ||| s == "ALL"@
    ||| s == "LOCAL_QUORUM"@
    ||| s == "EACH_QUORUM"@
    ||| s == "SERIAL"@
    ||| s == "LOCAL_SERIAL"@
    ||| s == "LOCAL_ONE"@
}

/// A configuration the adapter can be built from: at least one node, a
/// named keyspace and user, positive timeouts and pool bounds, and known
/// consistency levels.
pub open spec fn spec_config_ok(c: ScyllaConfig) -> bool {
    &&& c.nodes@.len() > 0
    &&& c.keyspace@.len() > 0
    &&& c.username@.len() > 0
    &&& c.connection_timeout_ms > 0
    &&& c.request_timeout_ms > 0
    &&& c.max_connections_per_node > 0
    &&& c.pool_size > 0
    &&& consistency_ok(c.read_consistency@)
    &&& consistency_ok(c.write_consistency@)
}

/// The message reported for the first failing configuration check.
/// Meaningful only when `spec_config_ok` does not hold.
pub open spec fn spec_config_issue(c: ScyllaConfig) -> Seq<char> {
    if c.nodes@.len() == 0 {
        "At least one ScyllaDB node must be specified"@
    } else if c.keyspace@.len() == 0 {
        "Keyspace name cannot be empty"@
    } else if c.username@.len() == 0 {
        "Username cannot be empty"@
    } else if c.connection_timeout_ms == 0 {
        "Connection timeout must be greater than 0"@
    } else if c.request_timeout_ms == 0 {
        "Request timeout must be greater than 0"@
    } else if c.max_connections_per_node == 0 {
        "Max connections per node must be greater than 0"@
    } else if c.pool_size == 0 {
        "Pool size must be greater than 0"@
    } else if !consistency_ok(c.read_consistency@) {
        "Invalid read consistency level"@
    } else {
        "Invalid write consistency level"@
    }
}

/// Whether the string is one of the accepted consistency levels.
fn consistency_level_ok(s: &String) -> (r: bool)
    ensures
        r == consistency_ok(s@),
{
    *s == String::from_str("ANY") || *s == String::from_str("ONE") || *s == String::from_str("TWO")
        || *s == String::from_str("THREE") || *s == String::from_str("QUORUM") || *s
        == String::from_str("ALL") || *s == String::from_str("LOCAL_QUORUM") || *s
        == String::from_str("EACH_QUORUM") || *s == String::from_str("SERIAL") || *s
        == String::from_str("LOCAL_SERIAL") || *s == String::from_str("LOCAL_ONE")
}

impl ScyllaConfig {
    /// Validate the configuration: succeeds exactly when every check
    /// passes, and otherwise reports the first failing check.
    pub fn validate(&self) -> (r: Result<(), String>)
        ensures
            r is Ok <==> spec_config_ok(*self),
            r matches Err(m) ==> m@ == spec_config_issue(*self),
    {
        if self.nodes.is_empty() {
            return Err(String::from_str("At least one ScyllaDB node must be specified"));
        }
        if self.keyspace.as_str().is_empty() {
            return Err(String::from_str("Keyspace name cannot be empty"));
        }
        if self.username.as_str().is_empty() {
            return Err(String::from_str("Username cannot be empty"));
        }
        if self.connection_timeout_ms == 0 {
            return Err(String::from_str("Connection timeout must be greater than 0"));
        }
        if self.request_timeout_ms == 0 {
            return Err(String::from_str("Request timeout must be greater than 0"));
        }
        if self.max_connections_per_node == 0 {
            return Err(String::from_str("Max connections per node must be greater than 0"));
        }
        if self.pool_size == 0 {
            return Err(String::from_str("Pool size must be greater than 0"));
        }
        if !consistency_level_ok(&self.read_consistency) {
            return Err(String::from_str("Invalid read consistency level"));
        }
        if !consistency_level_ok(&self.write_consistency) {
            return Err(String::from_str("Invalid write consistency level"));
        }
        Ok(())
    }
}

impl Default for ScyllaConfig {
    /// The local single-node development configuration.
    fn default() -> (r: Self)
        ensures
            r.nodes@.len() == 1,
            r.nodes@[0]@ == "127.0.0.1:9042"@,
            r.keyspace@ == "blockchain"@,
            r.username@ == "cassandra"@,
            r.password@ == "cassandra"@,
            r.connection_timeout_ms == 5000,
            r.request_timeout_ms == 10000,
            r.max_connections_per_node == 10,
            r.pool_size == 20,
            r.use_compression,
            r.read_consistency@ == "LOCAL_QUORUM"@,
            r.write_consistency@ == "LOCAL_QUORUM"@,
            r.retry_policy.max_retries == 3,
            r.retry_policy.base_delay_ms == 100,
            r.retry_policy.max_delay_ms == 5000,
            r.retry_policy.exponential_backoff,
            r.load_balancing_policy@ == "DcAwareRoundRobinPolicy"@,
    {
        let mut nodes: Vec<String> = Vec::new();
        nodes.push(String::from_str("127.0.0.1:9042"));
        ScyllaConfig {
            nodes,
            keyspace: String::from_str("blockchain"),
            username: String::from_str("cassandra"),
            password: String::from_str("cassandra"),
            connection_timeout_ms: 5000,
            request_timeout_ms: 10000,
            max_connections_per_node: 10,
            pool_size: 20,
            use_compression: true,
            read_consistency: String::from_str("LOCAL_QUORUM"),
            write_consistency: String::from_str("LOCAL_QUORUM"),
            retry_policy: RetryPolicyConfig {
                max_retries: 3,
                base_delay_ms: 100,
                max_delay_ms: 5000,
                exponential_backoff: true,
            },
            load_balancing_policy: String::from_str("DcAwareRoundRobinPolicy"),
        }
    }
}

impl Default for RetryPolicyConfig {
    /// Three retries with exponential backoff from 100 ms up to 5 s.
    fn default() -> (r: Self)
        ensures
            r.max_retries == 3,
            r.base_delay_ms == 100,
            r.max_delay_ms == 5000,
            r.exponential_backoff,
    {
        RetryPolicyConfig {
            max_retries: 3,
            base_delay_ms: 100,
            max_delay_ms: 5000,
            exponential_backoff: true,
        }
    }
}

} // verus!
