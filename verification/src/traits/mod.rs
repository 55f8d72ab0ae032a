//! Shapes of the data exchanged with language models, repositories and tool
//! executors, and their failures.

pub mod llm_client;
pub mod repository;
pub mod tool_executor;
