//! Device identity, registration and rotating log logic of the support agent.

pub mod text;
pub mod clock;
pub mod logger;
pub mod logfiles;
pub mod settings;
pub mod json;
pub mod registration;
pub mod orchestrator;
pub mod ticket;
pub mod encoding;
