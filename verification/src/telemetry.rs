//! What the process settings say about logging and tracing.

use vstd::prelude::*;

verus! {

/// How log lines are written.
#[derive(Debug, Clone, Copy, PartialEq, Eq, Structural)]
pub enum LogFormat {
    /// Lines for people to read.
    Plain,
    /// One JSON object per line.
    Json,
}

/// The log format that the setting `value` selects: JSON for the value
/// `json`, plain lines for any other value and without a setting.
pub fn log_format(value: Option<&str>) -> (format: LogFormat)
    ensures
        format == if value matches Some(text) && text@ == "json"@ {
            LogFormat::Json
        } else {
            LogFormat::Plain
        },
{
    match value {
        Some(text) => if text.to_owned() == String::from_str("json") {
            LogFormat::Json
        } else {
            LogFormat::Plain
        },
        None => LogFormat::Plain,
    }
}

/// Whether traces are exported: they are when an endpoint for them is set,
/// whatever its value.
pub fn is_otel_enabled(endpoint: Option<&str>) -> (enabled: bool)
    ensures
        enabled == endpoint is Some,
{
    endpoint.is_some()
}

} // verus!
