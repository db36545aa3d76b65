//! Newsletter sign-up with e-mail confirmation: input validation, confirmation
//! tokens, the subscriber store and the confirmation workflow.

pub mod domain;
pub mod email_client;
pub mod store;
pub mod text;
pub mod token;
pub mod workflow;
