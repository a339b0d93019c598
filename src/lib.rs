//! Bridge between an interactive process in a pseudo-terminal and an ordered
//! record log: decoding of remote commands, the records written to the output
//! log, and the decisions of the multiplexing loop.

pub mod append;
pub mod bridge;
pub mod bytes;
pub mod clock;
pub mod collector;
pub mod command;
pub mod laws;
pub mod output;
