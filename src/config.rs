use vstd::prelude::*;
use vstd::string::StringExecFns;

verus! {

/// Where the status endpoint listens.
#[derive(Debug, PartialEq, Clone)]
pub struct HttpSettings {
    pub address: String,
}

/// The inbound broker: address, client identity, subscriptions with their
/// delivery-assurance levels, last will, and credentials.
#[derive(Debug, PartialEq, Clone)]
pub struct MqttSettings {
    pub address: String,
    pub client_id: String,
    pub mqtt_topic: Vec<String>,
    pub mqtt_qos: Vec<i32>,
    pub will_message: String,
    pub will_topic: String,
    pub user: String,
    pub pwd: String,
}

/// The event log: servers, per-message timeout, and the destination filter.
#[derive(Debug, PartialEq, Clone)]
pub struct KafkaSettings {
    pub servers: String,
    pub timeout_ms: i32,
    pub kafka_topic: String,
}

/// All settings of a bridge, loaded once at startup.
#[derive(Debug, PartialEq, Clone)]
pub struct BridgeSettings {
    pub mqtt_settings: MqttSettings,
    pub kafka_settings: KafkaSettings,
    pub http_settings: HttpSettings,
}

impl HttpSettings {
    pub open spec fn is_default(&self) -> bool {
        self.address@ == "127.0.0.1"@
    }
}

impl MqttSettings {
    pub open spec fn is_default(&self) -> bool {
        &&& self.address@ == "tcp://127.0.0.1:1883"@
        &&& self.client_id@ == "test_client"@
        &&& self.mqtt_topic@.len() == 1
        &&& self.mqtt_topic@[0]@ == "#"@
        &&& self.mqtt_qos@ == seq![1i32]
        &&& self.will_message@ == "Bridge node has failed"@
        &&& self.will_topic@ == "bridge/dead"@
        &&& self.user@ == "mqttAdmin"@
        &&& self.pwd@ == "super"@
    }
}

impl KafkaSettings {
    pub open spec fn is_default(&self) -> bool {
        &&& self.servers@ == "127.0.0.1:9092"@
        &&& self.timeout_ms == 5000
        &&& self.kafka_topic@ == "*"@
    }
}

impl BridgeSettings {
    pub open spec fn is_default(&self) -> bool {
        &&& self.mqtt_settings.is_default()
        &&& self.kafka_settings.is_default()
        &&& self.http_settings.is_default()
    }
}

impl Default for HttpSettings {
    fn default() -> (r: HttpSettings)
        ensures
            r.is_default(),
    {
        HttpSettings { address: String::from_str("127.0.0.1") }
    }
}

impl Default for MqttSettings {
    fn default() -> (r: MqttSettings)
        ensures
            r.is_default(),
    {
        let mut mqtt_topic: Vec<String> = Vec::new();
        mqtt_topic.push(String::from_str("#"));
        let mut mqtt_qos: Vec<i32> = Vec::new();
        mqtt_qos.push(1);
        let r = MqttSettings {
            address: String::from_str("tcp://127.0.0.1:1883"),
            client_id: String::from_str("test_client"),
            mqtt_topic,
            mqtt_qos,
            will_message: String::from_str("Bridge node has failed"),
            will_topic: String::from_str("bridge/dead"),
            user: String::from_str("mqttAdmin"),
            pwd: String::from_str("super"),
        };
        assert(r.mqtt_qos@ =~= seq![1i32]);
        r
    }
}

impl Default for KafkaSettings {
    fn default() -> (r: KafkaSettings)
        ensures
            r.is_default(),
    {
        KafkaSettings {
            servers: String::from_str("127.0.0.1:9092"),
            timeout_ms: 5000,
            kafka_topic: String::from_str("*"),
        }
    }
}

impl Default for BridgeSettings {
    fn default() -> (r: BridgeSettings)
        ensures
            r.is_default(),
    {
        BridgeSettings {
            mqtt_settings: MqttSettings::default(),
            kafka_settings: KafkaSettings::default(),
            http_settings: HttpSettings::default(),
        }
    }
}

} // verus!
