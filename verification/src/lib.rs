pub mod configuration;
pub mod domain;
pub mod email;
pub mod store;
pub mod token;
pub mod workflow;
