//! Supervision of a local database daemon: the decisions that start it,
//! remediate a missing keyring once, bootstrap its schema and discover its
//! peer identity, each as a verified state machine or classifier.

pub mod text;
pub mod json;
pub mod supervisor;
pub mod state;
pub mod discovery;
pub mod identity;
pub mod peers;
pub mod schema;
pub mod command;
