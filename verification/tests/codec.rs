use reloadify::{decode_str, Format, ReloadifyError};
use serde::ser::SerializeStruct;
use std::collections::HashMap;

fn sample_map() -> HashMap<String, i64> {
    let mut m = HashMap::new();
    m.insert("a".to_string(), 1);
    m.insert("b".to_string(), -7);
    m.insert("c".to_string(), 0);
    m
}

#[test]
fn decode_json_exact_value() {
    let decoded: HashMap<String, i64> = decode_str("{\"a\":1}", Format::Json).unwrap();
    let mut expected = HashMap::new();
    expected.insert("a".to_string(), 1);
    assert_eq!(decoded, expected);
}

#[test]
fn round_trip_json() {
    let original = sample_map();
    let encoded = serde_json::to_string(&original).unwrap();
    let decoded: HashMap<String, i64> = decode_str(&encoded, Format::Json).unwrap();
    assert_eq!(decoded, original);
}

#[test]
fn round_trip_yaml() {
    let original = sample_map();
    let encoded = serde_yaml::to_string(&original).unwrap();
    let decoded: HashMap<String, i64> = decode_str(&encoded, Format::Yaml).unwrap();
    assert_eq!(decoded, original);
}

#[test]
fn round_trip_toml() {
    let original = sample_map();
    let encoded = toml::to_string(&original).unwrap();
    let decoded: HashMap<String, i64> = decode_str(&encoded, Format::Toml).unwrap();
    assert_eq!(decoded, original);
}

#[test]
fn round_trip_ini() {
    let mut original = HashMap::new();
    original.insert("host".to_string(), "localhost".to_string());
    original.insert("port".to_string(), "8080".to_string());
    let encoded = serde_ini::to_string(&original).unwrap();
    let decoded: HashMap<String, String> = decode_str(&encoded, Format::Ini).unwrap();
    assert_eq!(decoded, original);
}

#[derive(Debug, Clone, PartialEq)]
struct ServerConfig {
    host: String,
    port: String,
}

impl serde::Serialize for ServerConfig {
    fn serialize<S: serde::Serializer>(&self, s: S) -> Result<S::Ok, S::Error> {
        let mut st = s.serialize_struct("ServerConfig", 2)?;
        st.serialize_field("host", &self.host)?;
        st.serialize_field("port", &self.port)?;
        st.end()
    }
}

struct ServerConfigVisitor;

impl<'de> serde::de::Visitor<'de> for ServerConfigVisitor {
    type Value = ServerConfig;

    fn expecting(&self, f: &mut std::fmt::Formatter) -> std::fmt::Result {
        f.write_str("a server configuration")
    }

    fn visit_map<A: serde::de::MapAccess<'de>>(self, mut map: A) -> Result<ServerConfig, A::Error> {
        let mut host = None;
        let mut port = None;
        while let Some(key) = map.next_key::<String>()? {
            match key.as_str() {
                "host" => host = Some(map.next_value::<String>()?),
                "port" => port = Some(map.next_value::<String>()?),
                _ => {
                    let _ = map.next_value::<serde::de::IgnoredAny>()?;
                }
            }
        }
        Ok(ServerConfig { host: host.unwrap_or_default(), port: port.unwrap_or_default() })
    }
}

impl<'de> serde::Deserialize<'de> for ServerConfig {
    fn deserialize<D: serde::Deserializer<'de>>(d: D) -> Result<Self, D::Error> {
        d.deserialize_struct("ServerConfig", &["host", "port"], ServerConfigVisitor)
    }
}

#[test]
fn round_trip_xml() {
    let original = ServerConfig { host: "localhost".to_string(), port: "8080".to_string() };
    let encoded = serde_xml_rs::to_string(&original).unwrap();
    let decoded: ServerConfig = decode_str(&encoded, Format::Xml).unwrap();
    assert_eq!(decoded, original);
}

#[test]
fn decode_malformed_json_is_deserialize_error() {
    let r: Result<HashMap<String, i64>, ReloadifyError> = decode_str("{\"a\":", Format::Json);
    assert!(matches!(r, Err(ReloadifyError::DeserializeError(_))));
}

#[test]
fn decode_malformed_toml_is_deserialize_error() {
    let r: Result<HashMap<String, i64>, ReloadifyError> = decode_str("a ==== 1", Format::Toml);
    assert!(matches!(r, Err(ReloadifyError::DeserializeError(_))));
}

#[test]
fn decode_empty_json_object() {
    let decoded: HashMap<String, i64> = decode_str("{}", Format::Json).unwrap();
    assert!(decoded.is_empty());
}
