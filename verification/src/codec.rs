use crate::errors::ReloadifyError;
use crate::types::Format;
use vstd::prelude::*;

verus! {

/// Relies on serde_json::from_str: parses JSON text into any type that serde
/// can deserialize; the error's message is returned as plain text.
#[verifier::external_body]
fn decode_json<C: serde::de::DeserializeOwned>(content: &str) -> (r: Result<C, String>) {
    serde_json::from_str::<C>(content).map_err(|e| e.to_string())
}

/// Relies on serde_yaml::from_str: parses YAML text into any type that serde
/// can deserialize; the error's message is returned as plain text.
#[verifier::external_body]
fn decode_yaml<C: serde::de::DeserializeOwned>(content: &str) -> (r: Result<C, String>) {
    serde_yaml::from_str::<C>(content).map_err(|e| e.to_string())
}

/// Relies on toml::from_str: parses TOML text into any type that serde can
/// deserialize; the error's message is returned as plain text.
#[verifier::external_body]
fn decode_toml<C: serde::de::DeserializeOwned>(content: &str) -> (r: Result<C, String>) {
    toml::from_str::<C>(content).map_err(|e| e.to_string())
}

/// Relies on serde_xml_rs::from_str: parses XML text into any type that
/// serde can deserialize; the error's message is returned as plain text.
#[verifier::external_body]
fn decode_xml<C: serde::de::DeserializeOwned>(content: &str) -> (r: Result<C, String>) {
    serde_xml_rs::from_str::<C>(content).map_err(|e| e.to_string())
}

/// Relies on serde_ini::from_str: parses INI text into any type that serde
/// can deserialize; the error's message is returned as plain text.
#[verifier::external_body]
fn decode_ini<C: serde::de::DeserializeOwned>(content: &str) -> (r: Result<C, String>) {
    serde_ini::from_str::<C>(content).map_err(|e| e.to_string())
}

/// Decodes raw file content into the caller's target type under the declared
/// format. A failure of the underlying codec is the only error, and it is
/// reported as `DeserializeError` carrying the codec's message.
pub fn decode_str<C: serde::de::DeserializeOwned>(content: &str, format: Format) -> (r: Result<
    C,
    ReloadifyError,
>)
    ensures
        r matches Err(e) ==> e matches ReloadifyError::DeserializeError(_),
{
    let decoded: Result<C, String> = match format {
        Format::Json => decode_json(content),
        Format::Yaml => decode_yaml(content),
        Format::Toml => decode_toml(content),
        Format::Xml => decode_xml(content),
        Format::Ini => decode_ini(content),
    };
    match decoded {
        Ok(value) => Ok(value),
        Err(message) => Err(ReloadifyError::DeserializeError(message)),
    }
}

} // verus!
