//! The adapter itself: its configuration, its lifecycle state machine, and
//! the builder that assembles it. The session's I/O loop lives outside the
//! verified boundary and drives the state machine through the transition
//! methods here, each of which moves along exactly one edge of the lifecycle.

use vstd::prelude::*;
use crate::config::{
    default_channel_capacity, default_qos, default_timeout_ms, matches_connection, ConfigError,
    MQTTConnectionConfig, MQTTSourceConfig,
};
use crate::model::QualityOfService;

verus! {

/// Where the adapter stands in its lifecycle. `Failed` is where a fatal
/// transport or subscribe error leaves it.
#[derive(Debug, Clone, Copy, PartialEq, Eq, Structural)]
pub enum ComponentStatus {
    Stopped,
    Starting,
    Running,
    Stopping,
    Failed,
}

/// How dispatched events are handed downstream: directly in the session's
/// task, or queued into a bounded buffer drained by the consumer.
#[derive(Debug, Clone, Copy, PartialEq, Eq, Structural)]
pub enum DispatchMode {
    Direct,
    Buffered,
}

/// The lifecycle's edges: every transition method below moves along exactly
/// one of these.
pub open spec fn lifecycle_step_allowed(from: ComponentStatus, to: ComponentStatus) -> bool {
    ||| (from == ComponentStatus::Stopped && to == ComponentStatus::Starting)
    ||| (from == ComponentStatus::Starting && to == ComponentStatus::Running)
    ||| (from == ComponentStatus::Running && to == ComponentStatus::Stopping)
    ||| (from == ComponentStatus::Stopping && to == ComponentStatus::Stopped)
    ||| (from == ComponentStatus::Starting && to == ComponentStatus::Failed)
    ||| (from == ComponentStatus::Running && to == ComponentStatus::Failed)
}

/// One adapter instance: a validated configuration, a stable source id, and
/// the lifecycle state the hosting loop drives.
#[derive(Debug)]
pub struct MQTTSource {
    pub id: String,
    pub config: MQTTSourceConfig,
    pub status: ComponentStatus,
    pub auto_start: bool,
    pub dispatch_mode: Option<DispatchMode>,
    pub dispatch_buffer_capacity: Option<usize>,
}

impl MQTTSource {
    /// A stopped adapter with the given id and configuration and default
    /// dispatch settings.
    pub fn new(id: &str, config: MQTTSourceConfig) -> (r: Result<Self, ConfigError>)
        ensures
            r matches Ok(s) && s.id@ == id@ && s.config == config && s.status
                == ComponentStatus::Stopped && s.auto_start && s.dispatch_mode is None
                && s.dispatch_buffer_capacity is None,
    {
        Ok(
            Self {
                id: id.to_owned(),
                config,
                status: ComponentStatus::Stopped,
                auto_start: true,
                dispatch_mode: None,
                dispatch_buffer_capacity: None,
            },
        )
    }

    /// A stopped adapter with explicit dispatch settings where given.
    pub fn with_dispatch(
        id: &str,
        config: MQTTSourceConfig,
        dispatch_mode: Option<DispatchMode>,
        dispatch_buffer_capacity: Option<usize>,
    ) -> (r: Result<Self, ConfigError>)
        ensures
            r matches Ok(s) && s.id@ == id@ && s.config == config && s.status
                == ComponentStatus::Stopped && s.auto_start && s.dispatch_mode == dispatch_mode
                && s.dispatch_buffer_capacity == dispatch_buffer_capacity,
    {
        Ok(
            Self {
                id: id.to_owned(),
                config,
                status: ComponentStatus::Stopped,
                auto_start: true,
                dispatch_mode,
                dispatch_buffer_capacity,
            },
        )
    }

    /// The adapter's stable source id: what every emitted change carries.
    pub fn id(&self) -> (r: &str)
        ensures
            r@ == self.id@,
    {
        self.id.as_str()
    }

    /// The adapter kind's name.
    pub fn kind_name(&self) -> (r: &str)
        ensures
            r@ == "mqtt"@,
    {
        "mqtt"
    }

    /// This adapter exposes no extra properties.
    pub fn properties(&self) -> (r: Vec<(String, crate::json::Json)>)
        ensures
            r@.len() == 0,
    {
        Vec::new()
    }

    /// Whether the hosting framework should start this adapter by itself.
    pub fn auto_start(&self) -> (r: bool)
        ensures
            r == self.auto_start,
    {
        self.auto_start
    }

    /// Where the adapter stands in its lifecycle.
    pub fn status(&self) -> (r: ComponentStatus)
        ensures
            r == self.status,
    {
        self.status
    }

    /// A start request on a stopped adapter: validation runs once, before
    /// any session exists. On success the adapter is `Starting` and the
    /// returned connection description is exactly what the configuration
    /// materializes; on a validation error nothing changes.
    pub fn begin_start(&mut self) -> (r: Result<MQTTConnectionConfig, ConfigError>)
        requires
            old(self).status == ComponentStatus::Stopped,
        ensures
            final(self).id == old(self).id,
            final(self).config == old(self).config,
            final(self).auto_start == old(self).auto_start,
            final(self).dispatch_mode == old(self).dispatch_mode,
            final(self).dispatch_buffer_capacity == old(self).dispatch_buffer_capacity,
            match r {
                Ok(cc) => final(self).status == ComponentStatus::Starting && matches_connection(
                    cc,
                    old(self).config,
                    old(self).id@,
                ) && old(self).config.valid(),
                Err(e) => final(self).status == ComponentStatus::Stopped && Err::<
                    (),
                    ConfigError,
                >(e) == old(self).config.validate_spec(),
            },
            r is Ok <==> old(self).config.valid(),
    {
        match self.config.validate() {
            Err(e) => Err(e),
            Ok(()) => {
                let cc = self.config.to_mqtt_connection_config(self.id.as_str());
                self.status = ComponentStatus::Starting;
                Ok(cc)
            },
        }
    }

    /// The subscribe succeeded and the receive loop is entered.
    pub fn mark_running(&mut self)
        requires
            old(self).status == ComponentStatus::Starting,
        ensures
            *final(self) == (MQTTSource { status: ComponentStatus::Running, ..*old(self) }),
            lifecycle_step_allowed(old(self).status, final(self).status),
    {
        self.status = ComponentStatus::Running;
    }

    /// A stop request on a running adapter.
    pub fn begin_stop(&mut self)
        requires
            old(self).status == ComponentStatus::Running,
        ensures
            *final(self) == (MQTTSource { status: ComponentStatus::Stopping, ..*old(self) }),
            lifecycle_step_allowed(old(self).status, final(self).status),
    {
        self.status = ComponentStatus::Stopping;
    }

    /// The session's resources are released.
    pub fn mark_stopped(&mut self)
        requires
            old(self).status == ComponentStatus::Stopping,
        ensures
            *final(self) == (MQTTSource { status: ComponentStatus::Stopped, ..*old(self) }),
            lifecycle_step_allowed(old(self).status, final(self).status),
    {
        self.status = ComponentStatus::Stopped;
    }

    /// A fatal subscribe or transport error: visible in the status, not
    /// swallowed.
    pub fn mark_failed(&mut self)
        requires
            old(self).status == ComponentStatus::Starting || old(self).status
                == ComponentStatus::Running,
        ensures
            *final(self) == (MQTTSource { status: ComponentStatus::Failed, ..*old(self) }),
            lifecycle_step_allowed(old(self).status, final(self).status),
    {
        self.status = ComponentStatus::Failed;
    }

    /// A builder for an adapter with the given id.
    pub fn builder(id: &str) -> (r: MQTTSourceBuilder)
        ensures
            r.is_new(id@),
    {
        MQTTSourceBuilder::new(id)
    }
}

/// Step-by-step assembly of an adapter; unset options fall back to the
/// configuration defaults at `build`.
#[derive(Debug)]
pub struct MQTTSourceBuilder {
    pub id: String,
    pub host: String,
    pub port: u16,
    pub topic: String,
    pub qos: Option<QualityOfService>,
    pub username: Option<String>,
    pub password: Option<String>,
    pub dispatch_mode: Option<DispatchMode>,
    pub dispatch_buffer_capacity: Option<usize>,
    pub channel_capacity: Option<usize>,
    pub auto_start: bool,
    pub timeout_ms: Option<u64>,
}

impl MQTTSourceBuilder {
    /// What a fresh builder holds: everything unset but the id, the
    /// placeholder port, and auto-start on.
    pub open spec fn is_new(&self, id: Seq<char>) -> bool {
        &&& self.id@ == id
        &&& self.host@ == Seq::<char>::empty()
        &&& self.port == 9001
        &&& self.topic@ == Seq::<char>::empty()
        &&& self.qos is None
        &&& self.username is None
        &&& self.password is None
        &&& self.dispatch_mode is None
        &&& self.dispatch_buffer_capacity is None
        &&& self.channel_capacity is None
        &&& self.auto_start
        &&& self.timeout_ms is None
    }

    /// A fresh builder for the given id.
    pub fn new(id: &str) -> (r: Self)
        ensures
            r.is_new(id@),
    {
        Self {
            id: id.to_owned(),
            host: String::new(),
            port: 9001,
            topic: String::new(),
            qos: None,
            username: None,
            password: None,
            dispatch_mode: None,
            dispatch_buffer_capacity: None,
            channel_capacity: None,
            auto_start: true,
            timeout_ms: None,
        }
    }

    /// Choose the broker host.
    pub fn with_host(self, host: &str) -> (r: Self)
        ensures
            r == (Self { host: r.host, ..self }),
            r.host@ == host@,
    {
        Self { host: host.to_owned(), ..self }
    }

    /// Choose the broker port.
    pub fn with_port(self, port: u16) -> (r: Self)
        ensures
            r == (Self { port: port, ..self }),
    {
        Self { port, ..self }
    }

    /// Choose the topic to subscribe to.
    pub fn with_topic(self, topic: &str) -> (r: Self)
        ensures
            r == (Self { topic: r.topic, ..self }),
            r.topic@ == topic@,
    {
        Self { topic: topic.to_owned(), ..self }
    }

    /// Choose the delivery guarantee.
    pub fn with_qos(self, qos: QualityOfService) -> (r: Self)
        ensures
            r == (Self { qos: Some(qos), ..self }),
    {
        Self { qos: Some(qos), ..self }
    }

    /// Set the authentication username.
    pub fn with_username(self, username: &str) -> (r: Self)
        ensures
            r == (Self { username: r.username, ..self }),
            r.username matches Some(u) && u@ == username@,
    {
        Self { username: Some(username.to_owned()), ..self }
    }

    /// Set the authentication password.
    pub fn with_password(self, password: &str) -> (r: Self)
        ensures
            r == (Self { password: r.password, ..self }),
            r.password matches Some(p) && p@ == password@,
    {
        Self { password: Some(password.to_owned()), ..self }
    }

    /// Choose how events are handed downstream.
    pub fn with_dispatch_mode(self, mode: DispatchMode) -> (r: Self)
        ensures
            r == (Self { dispatch_mode: Some(mode), ..self }),
    {
        Self { dispatch_mode: Some(mode), ..self }
    }

    /// Bound the dispatch buffer.
    pub fn with_dispatch_buffer_capacity(self, capacity: usize) -> (r: Self)
        ensures
            r == (Self { dispatch_buffer_capacity: Some(capacity), ..self }),
    {
        Self { dispatch_buffer_capacity: Some(capacity), ..self }
    }

    /// Choose whether the framework starts the adapter by itself.
    pub fn with_auto_start(self, auto_start: bool) -> (r: Self)
        ensures
            r == (Self { auto_start: auto_start, ..self }),
    {
        Self { auto_start, ..self }
    }

    /// Bound the inbound event buffer.
    pub fn with_channel_capacity(self, capacity: usize) -> (r: Self)
        ensures
            r == (Self { channel_capacity: Some(capacity), ..self }),
    {
        Self { channel_capacity: Some(capacity), ..self }
    }

    /// Choose the operation timeout in milliseconds.
    pub fn with_timeout_ms(self, timeout_ms: u64) -> (r: Self)
        ensures
            r == (Self { timeout_ms: Some(timeout_ms), ..self }),
    {
        Self { timeout_ms: Some(timeout_ms), ..self }
    }

    /// Take connection fields wholesale from a configuration; dispatch and
    /// capacity settings are kept.
    pub fn with_config(self, config: MQTTSourceConfig) -> (r: Self)
        ensures
            r.id == self.id,
            r.host == config.host,
            r.port == config.port,
            r.topic == config.topic,
            r.username == config.username,
            r.password == config.password,
            r.qos == Some(config.qos),
            r.dispatch_mode == self.dispatch_mode,
            r.dispatch_buffer_capacity == self.dispatch_buffer_capacity,
            r.channel_capacity == self.channel_capacity,
            r.auto_start == self.auto_start,
            r.timeout_ms == self.timeout_ms,
    {
        Self {
            host: config.host,
            port: config.port,
            topic: config.topic,
            username: config.username,
            password: config.password,
            qos: Some(config.qos),
            ..self
        }
    }

    /// Assemble the adapter: chosen values win, unset options fall back to
    /// the configuration defaults, and the adapter starts its life stopped.
    pub fn build(self) -> (r: Result<MQTTSource, ConfigError>)
        ensures
            r matches Ok(s) && {
                &&& s.id@ == self.id@
                &&& s.config.host == self.host
                &&& s.config.port == self.port
                &&& s.config.topic == self.topic
                &&& s.config.username == self.username
                &&& s.config.password == self.password
                &&& s.config.qos == (match self.qos {
                    Some(q) => q,
                    None => QualityOfService::ExactlyOnce,
                })
                &&& s.config.channel_capacity == (match self.channel_capacity {
                    Some(c) => c,
                    None => 100usize,
                })
                &&& s.config.timeout_ms == (match self.timeout_ms {
                    Some(t) => t,
                    None => 5000u64,
                })
                &&& s.status == ComponentStatus::Stopped
                &&& s.auto_start
                &&& s.dispatch_mode == self.dispatch_mode
                &&& s.dispatch_buffer_capacity == self.dispatch_buffer_capacity
            },
    {
        let config = MQTTSourceConfig {
            host: self.host,
            port: self.port,
            topic: self.topic,
            username: self.username,
            password: self.password,
            qos: match self.qos {
                Some(q) => q,
                None => default_qos(),
            },
            channel_capacity: match self.channel_capacity {
                Some(c) => c,
                None => default_channel_capacity(),
            },
            timeout_ms: match self.timeout_ms {
                Some(t) => t,
                None => default_timeout_ms(),
            },
        };
        MQTTSource::with_dispatch(
            self.id.as_str(),
            config,
            self.dispatch_mode,
            self.dispatch_buffer_capacity,
        )
    }
}

} // verus!
