//! Credential lifecycle for desktop AI-service providers: in-memory
//! credential records, secret redaction, content fingerprints for change
//! detection, and the reload/refresh rules that keep them consistent.
pub mod text;
pub mod mask;
pub mod fingerprint;
pub mod record;
pub mod store;
pub mod status;
pub mod poller;
pub mod state;
