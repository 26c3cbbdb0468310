//! A front end over three package-management tools: it decides which tool
//! runs for each user request, with what arguments, and when a failed attempt
//! is followed by another one.

pub mod config;
pub mod command;
pub mod plan;
pub mod dispatch;
pub mod laws;
