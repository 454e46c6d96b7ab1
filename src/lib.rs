//! A stand-in for a speech-to-text transcription endpoint: a fixed,
//! request-independent transcription document, its JSON text, and the
//! routing rule that decides which requests receive it.
pub mod decimal;
pub mod json;
pub mod model;
pub mod router;

pub use decimal::Decimal;
pub use json::ToJson;
pub use model::{handler, Alternative, Channel, DeepgramResponse, Metadata, Results, Word};
pub use router::{serve, Reply, Request};
