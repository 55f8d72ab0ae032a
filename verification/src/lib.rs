//! Verified core of the Digital Twin Desktop application: value objects,
//! domain errors, conversation memory management, prompt versioning and the
//! decision logic of the API layer.

pub mod api;
pub mod application;
pub mod error_messages;
pub mod errors;
pub mod ids;
pub mod json;
pub mod models;
pub mod text;
pub mod traits;
pub mod value_objects;
