//! Control core of a ReAct-style command-line agent: conversation state and its
//! pruning, the retry policy of the completion transport, tool-result
//! classification, the turn engine's step decisions and the events it emits.
pub mod conversation;
pub mod text;
pub mod json;
pub mod transport;
pub mod usage;
pub mod tool_log;
pub mod engine;
pub mod prompt;
pub mod session;
pub mod paging;
pub mod pages;
