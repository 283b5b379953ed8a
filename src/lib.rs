//! Decision logic of a bridge that forwards messages from a publish/subscribe
//! broker to a partitioned event log.

pub mod bridge;
pub mod bridge_laws;
pub mod config;
pub mod http;
pub mod stats;
pub mod topic;
pub mod utils;

pub use bridge::{BridgeAction, BridgeLoop, ConnectionEvent, InboundMessage, LinkState, OutboundRecord};
pub use config::{BridgeSettings, HttpSettings, KafkaSettings, MqttSettings};
pub use stats::{BridgeStats, StatsSnapshot};
pub use topic::mqtt_to_kafka_topic;
pub use utils::get_type_of;
