//! Startup configuration: validation of the two address arguments, and
//! parsing of the optional YAML configuration file.
//!
//! The relay needs exactly two nonempty addresses, the local address to bind
//! and the target address to connect each accepted connection to; with either
//! missing the process must print usage and exit before any socket is opened.
//! The configuration file is auxiliary: its contents are logged and do not
//! alter the addresses. Reading the file is the caller's job; the library
//! parses its text.

use vstd::prelude::*;

use std::collections::HashMap;

verus! {

/// Whether both addresses were supplied: the relay may start only when the
/// proxy address and the target address are both nonempty.
pub fn args_present(proxy_addr: &str, target_addr: &str) -> (ok: bool)
    ensures
        ok <==> (proxy_addr@.len() > 0 && target_addr@.len() > 0),
{
    !proxy_addr.is_empty() && !target_addr.is_empty()
}

/// Declares serde_yaml::Value, the type of one parsed YAML value, so that it
/// can be carried through signatures; the library never looks inside it.
#[verifier::external_type_specification]
#[verifier::external_body]
pub struct ExYamlValue(serde_yaml::Value);

/// Whether the text is a YAML document that deserializes as a mapping from
/// strings to YAML values. Parsing is a function of the text alone.
pub uninterp spec fn yaml_parses_as_map(s: Seq<char>) -> bool;

/// Relies on serde_yaml::from_str: deserializes the text as a map from string
/// keys to YAML values; whether it succeeds depends on the text alone.
#[verifier::external_body]
fn parse_yaml_map(s: &str) -> (r: Option<HashMap<String, serde_yaml::Value>>)
    ensures
        r is Some <==> yaml_parses_as_map(s@),
{
    serde_yaml::from_str(s).ok()
}

/// Parse the text of the configuration file. Succeeds exactly when the text
/// is a YAML mapping from strings to values; the relay only logs the result,
/// so a failure is reported to the caller and is not fatal.
pub fn parse_config(text: &str) -> (r: Option<HashMap<String, serde_yaml::Value>>)
    ensures
        r is Some <==> yaml_parses_as_map(text@),
{
    parse_yaml_map(text)
}

} // verus!
