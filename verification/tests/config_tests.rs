use drasi_source_mqtt::auth::AuthMode;
use drasi_source_mqtt::config::{
    default_channel_capacity, default_host, default_port, default_qos, default_timeout_ms,
    default_topic, ConfigError, MQTTSourceConfig,
};
use drasi_source_mqtt::model::QualityOfService;
use drasi_source_mqtt::{ComponentStatus, DispatchMode, MQTTSource, MQTTSourceBuilder};

fn valid_config() -> MQTTSourceConfig {
    let mut c = MQTTSourceConfig::new();
    c.host = "broker.example".to_string();
    c.topic = "sensors/t".to_string();
    c
}

#[test]
fn default_config_is_valid() {
    let c = MQTTSourceConfig::new();
    assert_eq!(c.host, default_host());
    assert_eq!(c.port, default_port());
    assert_eq!(c.topic, default_topic());
    assert_eq!(c.username, None);
    assert_eq!(c.password, None);
    assert_eq!(c.qos, default_qos());
    assert_eq!(c.qos, QualityOfService::ExactlyOnce);
    assert_eq!(c.channel_capacity, default_channel_capacity());
    assert_eq!(c.channel_capacity, 100);
    assert_eq!(c.timeout_ms, default_timeout_ms());
    assert_eq!(c.timeout_ms, 5000);
    assert_eq!(c.validate(), Ok(()));
}

#[test]
fn validate_rejects_blank_host() {
    let mut c = valid_config();
    c.host = "   ".to_string();
    assert_eq!(c.validate(), Err(ConfigError::EmptyHost));
    c.host = String::new();
    assert_eq!(c.validate(), Err(ConfigError::EmptyHost));
}

#[test]
fn validate_rejects_zero_port() {
    let mut c = valid_config();
    c.port = 0;
    assert_eq!(c.validate(), Err(ConfigError::ZeroPort));
}

#[test]
fn validate_rejects_blank_topic() {
    let mut c = valid_config();
    c.topic = "\t\n".to_string();
    assert_eq!(c.validate(), Err(ConfigError::EmptyTopic));
}

#[test]
fn validate_rejects_zero_timeout() {
    let mut c = valid_config();
    c.timeout_ms = 0;
    assert_eq!(c.validate(), Err(ConfigError::ZeroTimeout));
}

#[test]
fn validate_reports_first_violation() {
    let mut c = valid_config();
    c.host = String::new();
    c.port = 0;
    c.topic = String::new();
    c.timeout_ms = 0;
    assert_eq!(c.validate(), Err(ConfigError::EmptyHost));
    c.host = "h".to_string();
    assert_eq!(c.validate(), Err(ConfigError::ZeroPort));
    c.port = 1883;
    assert_eq!(c.validate(), Err(ConfigError::EmptyTopic));
    c.topic = "t".to_string();
    assert_eq!(c.validate(), Err(ConfigError::ZeroTimeout));
}

#[test]
fn connection_config_without_credentials() {
    let c = valid_config();
    let cc = c.to_mqtt_connection_config("src-1");
    assert_eq!(cc.client_id, "src-1");
    assert_eq!(cc.host, "broker.example");
    assert_eq!(cc.port, 1883);
    assert_eq!(cc.topic, "sensors/t");
    assert_eq!(cc.qos, QualityOfService::ExactlyOnce);
    assert_eq!(cc.channel_capacity, 100);
    assert_eq!(cc.timeout_ms, 5000);
    assert_eq!(cc.credentials, None);
}

#[test]
fn connection_config_defaults_password_to_empty() {
    let mut c = valid_config();
    c.username = Some("alice".to_string());
    let cc = c.to_mqtt_connection_config("src-1");
    assert_eq!(cc.credentials, Some(("alice".to_string(), String::new())));
    c.password = Some("SECRET-REDACTED".to_string());
    let cc = c.to_mqtt_connection_config("src-1");
    assert_eq!(
        cc.credentials,
        Some(("alice".to_string(), "SECRET-REDACTED".to_string()))
    );
}

#[test]
fn auth_mode_follows_username() {
    let mut c = valid_config();
    assert_eq!(c.auth_mode(), AuthMode::Anonymous);
    c.username = Some("bob".to_string());
    assert_eq!(
        c.auth_mode(),
        AuthMode::UsernamePassword { username: "bob".to_string(), password: String::new() }
    );
    c.password = Some("pw".to_string());
    assert_eq!(
        c.auth_mode(),
        AuthMode::UsernamePassword { username: "bob".to_string(), password: "pw".to_string() }
    );
}

#[test]
fn builder_assembles_chosen_values() {
    let source = MQTTSource::builder("mqtt-source")
        .with_host("localhost")
        .with_port(1883)
        .with_topic("sensors/temperature")
        .with_qos(QualityOfService::AtLeastOnce)
        .with_username("u")
        .with_password("p")
        .with_channel_capacity(7)
        .with_timeout_ms(123)
        .with_dispatch_mode(DispatchMode::Buffered)
        .with_dispatch_buffer_capacity(3)
        .build()
        .unwrap();
    assert_eq!(source.id, "mqtt-source");
    assert_eq!(source.config.host, "localhost");
    assert_eq!(source.config.port, 1883);
    assert_eq!(source.config.topic, "sensors/temperature");
    assert_eq!(source.config.qos, QualityOfService::AtLeastOnce);
    assert_eq!(source.config.username, Some("u".to_string()));
    assert_eq!(source.config.password, Some("p".to_string()));
    assert_eq!(source.config.channel_capacity, 7);
    assert_eq!(source.config.timeout_ms, 123);
    assert_eq!(source.dispatch_mode, Some(DispatchMode::Buffered));
    assert_eq!(source.dispatch_buffer_capacity, Some(3));
    assert_eq!(source.status(), ComponentStatus::Stopped);
    assert!(source.auto_start());
}

#[test]
fn builder_falls_back_to_defaults() {
    let source = MQTTSourceBuilder::new("s").with_host("h").with_topic("t").build().unwrap();
    assert_eq!(source.config.qos, QualityOfService::ExactlyOnce);
    assert_eq!(source.config.channel_capacity, 100);
    assert_eq!(source.config.timeout_ms, 5000);
    assert_eq!(source.config.username, None);
    assert_eq!(source.config.password, None);
}

#[test]
fn builder_with_config_takes_connection_fields() {
    let c = valid_config();
    let source = MQTTSourceBuilder::new("s")
        .with_dispatch_buffer_capacity(9)
        .with_config(c.clone())
        .build()
        .unwrap();
    assert_eq!(source.config.host, c.host);
    assert_eq!(source.config.port, c.port);
    assert_eq!(source.config.topic, c.topic);
    assert_eq!(source.config.qos, c.qos);
    assert_eq!(source.dispatch_buffer_capacity, Some(9));
}

#[test]
fn lifecycle_walks_its_edges() {
    let mut source = MQTTSource::new("s", valid_config()).unwrap();
    assert_eq!(source.status(), ComponentStatus::Stopped);
    let cc = source.begin_start().unwrap();
    assert_eq!(cc.topic, "sensors/t");
    assert_eq!(source.status(), ComponentStatus::Starting);
    source.mark_running();
    assert_eq!(source.status(), ComponentStatus::Running);
    source.begin_stop();
    assert_eq!(source.status(), ComponentStatus::Stopping);
    source.mark_stopped();
    assert_eq!(source.status(), ComponentStatus::Stopped);
}

#[test]
fn start_on_invalid_config_reports_and_stays_stopped() {
    let mut bad = valid_config();
    bad.host = String::new();
    let mut source = MQTTSource::new("s", bad).unwrap();
    assert_eq!(source.begin_start(), Err(ConfigError::EmptyHost));
    assert_eq!(source.status(), ComponentStatus::Stopped);
}

#[test]
fn failure_is_visible_in_status() {
    let mut source = MQTTSource::new("s", valid_config()).unwrap();
    source.begin_start().unwrap();
    source.mark_running();
    source.mark_failed();
    assert_eq!(source.status(), ComponentStatus::Failed);
}

#[test]
fn source_getters() {
    let source = MQTTSource::new("src-9", valid_config()).unwrap();
    assert_eq!(source.id(), "src-9");
    assert_eq!(source.kind_name(), "mqtt");
    assert!(source.properties().is_empty());
    assert!(source.auto_start());
}
