//! What is sent to the service and what comes back from it.

pub mod nds_response;
pub mod partner;
