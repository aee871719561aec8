//! A thin binding over a messaging provider's REST API: builds the
//! form-encoded fields for sending a message through a messaging
//! service, and decodes the provider's response or webhook fields
//! back into a typed record.

pub mod fields;
pub mod message;
