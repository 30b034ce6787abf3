//! Reading the service's configuration from the text of its JSON file.
use vstd::prelude::*;

verus! {

#[verifier::external_type_specification]
#[verifier::external_body]
pub struct ExValue(serde_json::Value);

/// Why the configuration could not be had.
#[derive(Debug, Clone, Copy, PartialEq, Eq, Structural)]
pub enum ConfigurationErrors {
    LoadConfigurationFileError,
    JSONParsingError,
}

/// Relies on `serde_json::from_str` into a `serde_json::Value`: a JSON document
/// parses or is refused.
#[verifier::external_body]
fn parse_json(text: &str) -> (r: Result<serde_json::Value, ConfigurationErrors>)
    ensures
        r is Err ==> r->Err_0 == ConfigurationErrors::JSONParsingError,
{
    match serde_json::from_str::<serde_json::Value>(text) {
        Ok(value) => Ok(value),
        Err(_) => Err(ConfigurationErrors::JSONParsingError),
    }
}

/// The configuration held in `text`, or `JSONParsingError` when it is not JSON.
pub fn parse_configurations(text: &str) -> (r: Result<serde_json::Value, ConfigurationErrors>)
    ensures
        r is Err ==> r->Err_0 == ConfigurationErrors::JSONParsingError,
{
    parse_json(text)
}

} // verus!
