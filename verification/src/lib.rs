//! The verified core of a small chat bot: the shared command-prefix cell,
//! what the bot's commands answer and do, and what the bot settles before it
//! connects. Connecting, sending and receiving are left to the application
//! that uses this library.

pub mod commands;
pub mod settings;
pub mod state;
pub mod token;
