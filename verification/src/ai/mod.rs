//! The AI game master: prompts, chat messages and the structured replies
//! that flavor monsters and describe rooms.

pub mod prompts;
pub mod client;
pub mod flavor;
pub mod bridge;
pub mod worker;
