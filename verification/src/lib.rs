//! An MQTT ingestion adapter: it subscribes to a broker topic, decodes each
//! arriving JSON payload against a fixed change-event schema, converts the
//! result into a typed graph-change representation, and wraps it for dispatch
//! to a downstream consumer. Decoding, conversion and per-message error
//! isolation are verified; the broker transport itself is not.

pub mod auth;
mod clock;
pub mod config;
pub mod decode;
pub mod json;
pub mod model;
pub mod session;
pub mod source;

pub use config::MQTTSourceConfig;
pub use json::Json;
pub use model::SourceChangeEvent;
pub use source::ComponentStatus;
pub use source::DispatchMode;
pub use source::MQTTSource;
pub use source::MQTTSourceBuilder;
