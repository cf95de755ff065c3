//! A chat-completions gateway core: request normalization against an ordered
//! provider registry, sequential failover dispatch, a streaming relay that
//! strips the accounting field from each frame while keeping the last raw
//! element for logging, and a best-effort, non-blocking persistence plan.

pub mod dispatch;
pub mod json;
pub mod logrec;
pub mod openai;
pub mod registry;
pub mod relay;
pub mod request;
