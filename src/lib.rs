//! Double opt-in subscription core: validated subscriber values, the
//! confirmation-email request, token issuance, the subscription store and the
//! submit / confirm workflows.

pub mod domain;
pub mod email_client;
pub mod store;
pub mod token;
pub mod workflow;
