//! Input-handling core of an interactive console: a deferred-initialization
//! global container, a bounded FIFO character queue, a line assembler with
//! backspace/enter/overflow policy, and the cooperative re-arm protocol that
//! drains the queue one scheduled task at a time.

pub mod command;
pub mod global;
pub mod terminal;
