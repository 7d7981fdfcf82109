//! Verified core of the Smartloop command line client: the URLs it talks to,
//! the text it prints, the decisions of its interactive prompts and of its
//! chat loop, taken apart from the I/O that `app/` performs.

pub mod text;
pub mod urls;
pub mod sizes;
pub mod status;
pub mod messages;
pub mod commands;
pub mod projects;
pub mod agent;
pub mod chat;
