//! Connection parameters: a validated, immutable description of how to reach
//! the broker and what to subscribe to.

use vstd::prelude::*;
use vstd::string::StrSliceExecFns;
use crate::auth::AuthMode;
use crate::model::QualityOfService;

verus! {

/// The first constraint a configuration breaks, in checking order.
#[derive(Debug, Clone, Copy, PartialEq, Eq, Structural)]
pub enum ConfigError {
    EmptyHost,
    ZeroPort,
    EmptyTopic,
    ZeroTimeout,
}

/// How to reach the broker and what to subscribe to. `validate` must pass
/// before a session is built from this.
#[derive(Debug, Clone, PartialEq)]
pub struct MQTTSourceConfig {
    pub host: String,
    pub port: u16,
    pub topic: String,
    pub username: Option<String>,
    pub password: Option<String>,
    pub qos: QualityOfService,
    pub channel_capacity: usize,
    pub timeout_ms: u64,
}

/// Everything a broker session is built from, as plain values: the session
/// layer turns this into client options at its own edge.
#[derive(Debug, Clone, PartialEq)]
pub struct MQTTConnectionConfig {
    pub client_id: String,
    pub host: String,
    pub port: u16,
    pub credentials: Option<(String, String)>,
    pub qos: QualityOfService,
    pub channel_capacity: usize,
    pub timeout_ms: u64,
    pub topic: String,
}

/// An ASCII whitespace character: what blank-host and blank-topic detection
/// looks for.
pub open spec fn is_space(c: char) -> bool {
    c == ' ' || c == '\t' || c == '\n' || c == '\r' || c == '\u{0B}' || c == '\u{0C}'
}

/// A string that is empty or all ASCII whitespace counts as empty for
/// validation.
pub open spec fn is_blank(s: Seq<char>) -> bool {
    forall|i: int| 0 <= i < s.len() ==> is_space(s[i])
}

fn str_is_blank(s: &str) -> (r: bool)
    ensures
        r == is_blank(s@),
{
    let n = s.unicode_len();
    let mut i: usize = 0;
    while i < n
        invariant
            i <= n,
            n == s@.len(),
            forall|j: int| 0 <= j < i ==> is_space(s@[j]),
        decreases n - i,
    {
        let c = s.get_char(i);
        if !(c == ' ' || c == '\t' || c == '\n' || c == '\r' || c == '\u{0B}' || c == '\u{0C}') {
            proof {
                assert(!is_space(s@[i as int]));
            }
            return false;
        }
        i += 1;
    }
    true
}

pub fn default_host() -> (r: String)
    ensures
        r@ == "localhost"@,
{
    "localhost".to_owned()
}

pub fn default_port() -> (r: u16)
    ensures
        r == 1883,
{
    1883
}

pub fn default_topic() -> (r: String)
    ensures
        r@ == "topic"@,
{
    "topic".to_owned()
}

pub fn default_qos() -> (r: QualityOfService)
    ensures
        r == QualityOfService::ExactlyOnce,
{
    QualityOfService::ExactlyOnce
}

pub fn default_channel_capacity() -> (r: usize)
    ensures
        r == 100,
{
    100
}

pub fn default_timeout_ms() -> (r: u64)
    ensures
        r == 5000,
{
    5000
}

/// Whether `cc` is exactly what `config` materializes for a session under
/// the client id `id`: same broker address and subscription options, and
/// credentials present exactly when a username is set, with the password
/// defaulting to empty.
pub open spec fn matches_connection(
    cc: MQTTConnectionConfig,
    config: MQTTSourceConfig,
    id: Seq<char>,
) -> bool {
    &&& cc.client_id@ == id
    &&& cc.host@ == config.host@
    &&& cc.port == config.port
    &&& cc.qos == config.qos
    &&& cc.channel_capacity == config.channel_capacity
    &&& cc.timeout_ms == config.timeout_ms
    &&& cc.topic@ == config.topic@
    &&& (config.username is None ==> cc.credentials is None)
    &&& (config.username matches Some(u) ==> (cc.credentials matches Some(c) && c.0@ == u@ && (
    match config.password {
        Some(p) => c.1@ == p@,
        None => c.1@ == Seq::<char>::empty(),
    })))
}

impl MQTTSourceConfig {
    /// All four validated constraints at once: non-blank host, non-zero
    /// port, non-blank topic, non-zero timeout.
    pub open spec fn valid(&self) -> bool {
        &&& !is_blank(self.host@)
        &&& self.port != 0
        &&& !is_blank(self.topic@)
        &&& self.timeout_ms != 0
    }

    /// What `validate` returns: the first broken constraint, in checking
    /// order, or success.
    pub open spec fn validate_spec(&self) -> Result<(), ConfigError> {
        if is_blank(self.host@) {
            Err(ConfigError::EmptyHost)
        } else if self.port == 0 {
            Err(ConfigError::ZeroPort)
        } else if is_blank(self.topic@) {
            Err(ConfigError::EmptyTopic)
        } else if self.timeout_ms == 0 {
            Err(ConfigError::ZeroTimeout)
        } else {
            Ok(())
        }
    }

    /// The default configuration: localhost broker, default port and topic,
    /// no credentials, exactly-once delivery.
    pub fn new() -> (r: Self)
        ensures
            r.host@ == "localhost"@,
            r.port == 1883,
            r.topic@ == "topic"@,
            r.username is None,
            r.password is None,
            r.qos == QualityOfService::ExactlyOnce,
            r.channel_capacity == 100,
            r.timeout_ms == 5000,
            r.valid(),
    {
        proof {
            reveal_strlit("localhost");
            reveal_strlit("topic");
            assert(!is_space("localhost"@[0]));
            assert(!is_space("topic"@[0]));
        }
        Self {
            host: default_host(),
            port: default_port(),
            topic: default_topic(),
            username: None,
            password: None,
            qos: default_qos(),
            channel_capacity: default_channel_capacity(),
            timeout_ms: default_timeout_ms(),
        }
    }

    /// Success exactly when every constraint holds; otherwise the first
    /// broken one, in this order: empty host, zero port, empty topic, zero
    /// timeout.
    pub fn validate(&self) -> (r: Result<(), ConfigError>)
        ensures
            r == self.validate_spec(),
            r is Ok <==> self.valid(),
    {
        if str_is_blank(self.host.as_str()) {
            return Err(ConfigError::EmptyHost);
        }
        if self.port == 0 {
            return Err(ConfigError::ZeroPort);
        }
        if str_is_blank(self.topic.as_str()) {
            return Err(ConfigError::EmptyTopic);
        }
        if self.timeout_ms == 0 {
            return Err(ConfigError::ZeroTimeout);
        }
        Ok(())
    }

    /// The authentication this configuration asks for: a username turns it
    /// into username/password (password defaulting to empty), no username
    /// means anonymous.
    pub fn auth_mode(&self) -> (r: AuthMode)
        ensures
            self.username is None ==> r is Anonymous,
            self.username matches Some(u) ==> (r matches AuthMode::UsernamePassword {
                username: ru,
                password: rp,
            } && ru@ == u@ && (match self.password {
                Some(p) => rp@ == p@,
                None => rp@ == Seq::<char>::empty(),
            })),
    {
        match &self.username {
            None => AuthMode::Anonymous,
            Some(u) => AuthMode::UsernamePassword {
                username: u.clone(),
                password: match &self.password {
                    Some(p) => p.clone(),
                    None => String::new(),
                },
            },
        }
    }

    /// Materialize everything the session layer needs, with no side effects:
    /// the chosen client id, the broker address, credentials when a username
    /// is set (password defaulting to empty), and the subscription options.
    pub fn to_mqtt_connection_config(&self, id: &str) -> (r: MQTTConnectionConfig)
        ensures
            matches_connection(r, *self, id@),
    {
        let credentials = match &self.username {
            None => None,
            Some(u) => Some(
                (
                    u.clone(),
                    match &self.password {
                        Some(p) => p.clone(),
                        None => String::new(),
                    },
                ),
            ),
        };
        MQTTConnectionConfig {
            client_id: id.to_owned(),
            host: self.host.clone(),
            port: self.port,
            credentials,
            qos: self.qos,
            channel_capacity: self.channel_capacity,
            timeout_ms: self.timeout_ms,
            topic: self.topic.clone(),
        }
    }
}

} // verus!
