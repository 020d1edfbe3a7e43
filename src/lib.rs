//! A client for a transactional-email provider: the provider's wire format,
//! the outgoing request that carries one message, and the rule that decides
//! whether a delivery attempt succeeded.
pub mod email_client;
