//! Markdown preview rendering and single-slot prompt dispatch for an editor
//! that talks to a local text-generation service.
pub mod api;
pub mod dispatch;
pub mod preview;

use vstd::prelude::*;

verus! {

/// Endpoint of the local text-generation service.
pub const OLLAMA_API_URL: &'static str = "http://localhost:11434/api/generate";

/// How long the transport waits for the service, in milliseconds.
pub const REQUEST_TIMEOUT: u64 = 10000;

/// Model identifier sent with every prompt.
pub const MODEL_NAME: &'static str = "llama3.1";

/// View of an optional string.
pub open spec fn opt_view(o: Option<String>) -> Option<Seq<char>> {
    match o {
        Some(s) => Some(s@),
        None => None,
    }
}

} // verus!
