//! What the client says when something goes wrong.

use crate::text;
use crate::text::decimal_text;
use vstd::prelude::*;
use vstd::string::StringExecFns;

verus! {

/// What went wrong in the client.
#[derive(Debug, PartialEq, Eq)]
pub enum WasmClientError {
    WebSocket(String),
    Serialization(String),
    NotInitialized,
    Connection(String),
    Channel(String),
}

impl WasmClientError {
    /// What the error says.
    pub fn text(&self) -> (said: String)
        ensures
            said@ == match *self {
                WasmClientError::WebSocket(e) => "WebSocket error: "@ + e@,
                WasmClientError::Serialization(e) => "Serialization error: "@ + e@,
                WasmClientError::NotInitialized => "Connection not initialized"@,
                WasmClientError::Connection(e) => "Connection error: "@ + e@,
                WasmClientError::Channel(e) => "Channel error: "@ + e@,
            },
    {
        match self {
            WasmClientError::WebSocket(e) => "WebSocket error: ".to_owned().concat(e.as_str()),
            WasmClientError::Serialization(e) => "Serialization error: ".to_owned().concat(
                e.as_str(),
            ),
            WasmClientError::NotInitialized => "Connection not initialized".to_owned(),
            WasmClientError::Connection(e) => "Connection error: ".to_owned().concat(e.as_str()),
            WasmClientError::Channel(e) => "Channel error: ".to_owned().concat(e.as_str()),
        }
    }
}

/// What a page is told of a panic: its message, where it has one, and its place, where that is
/// known.
pub fn panic_text(message: Option<&str>, location: Option<(&str, u32)>) -> (said: String)
    ensures
        said@ == "WASM panic: "@ + (match message {
            Some(m) => m@,
            None => "Unknown error"@,
        }) + (match location {
            Some((file, line)) => " at "@ + file@ + ":"@ + text::decimal(line as nat),
            None => Seq::<char>::empty(),
        }),
{
    let said = match message {
        Some(m) => "WASM panic: ".to_owned().concat(m),
        None => "WASM panic: ".to_owned().concat("Unknown error"),
    };
    match location {
        Some((file, line)) => {
            let full = said.concat(" at ").concat(file).concat(":").concat(
                decimal_text(line as u64).as_str(),
            );
            assert(full@ =~= said@ + (" at "@ + file@ + ":"@ + text::decimal(line as nat)));
            full
        },
        None => {
            assert(said@ =~= said@ + Seq::<char>::empty());
            said
        },
    }
}

/// Each error says which it is, and the text that it holds.
pub proof fn law_what_an_error_says(error: WasmClientError, said: String)
    requires
        call_ensures(WasmClientError::text, (&error,), said),
    ensures
        match error {
            WasmClientError::WebSocket(e) => said@ == "WebSocket error: "@ + e@,
            WasmClientError::Serialization(e) => said@ == "Serialization error: "@ + e@,
            WasmClientError::NotInitialized => said@ == "Connection not initialized"@,
            WasmClientError::Connection(e) => said@ == "Connection error: "@ + e@,
            WasmClientError::Channel(e) => said@ == "Channel error: "@ + e@,
        },
{
}

} // verus!
