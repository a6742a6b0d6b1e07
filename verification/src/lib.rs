//! Chat commands for a reminder bot: the command grammar, and the plain data
//! that identifies a reminder and addresses its delivery.

pub mod id;
pub mod notify;
pub mod parser;
pub mod reminder;
pub mod telegram;
pub mod text;
