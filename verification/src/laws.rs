//! What holds of the library's operations, stated of what goes in and what
//! comes out.

pub mod text;
pub mod json;
pub mod shell;
pub mod command;
pub mod code_execution;
pub mod callbacks;
pub mod session_events;
pub mod session_reply;
pub mod claude_acp;
