//! Application services and use-case logic.

pub mod agent_rules;
pub mod commands;
pub mod dtos;
pub mod events;
pub mod memory_manager;
pub mod prompt_manager;
pub mod properties;
pub mod queries;
pub mod tallies;
pub mod tool_validation;
pub mod use_cases;
