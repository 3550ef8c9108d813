//! A typed client binding for a remote HTTP RPC service: every remote
//! method is a typed request record, every payload a typed response
//! record. The core is the request encoding engine: per call it decides
//! between one JSON document and one multipart form, threads locally held
//! binary payloads into the JSON object graph through synthetic
//! attachment tokens, and unwraps the uniform reply envelope.

pub mod bot;
pub mod json;
pub mod methods;
pub mod types;
