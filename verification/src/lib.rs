//! Verified core of an agent's shell tool, code execution extension, session
//! event routes and agent client protocol provider.

pub mod text;
pub mod json;
pub mod shell;
pub mod claude_acp;
pub mod command;
pub mod content;
pub mod code_execution;
pub mod tool_texts;
pub mod callbacks;
pub mod code_execution_client;
pub mod code_execution_call;
pub mod session_events;
pub mod session_reply;
pub mod shell_call;
pub mod laws;
