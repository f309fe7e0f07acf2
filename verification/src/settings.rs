//! How the framework is to recognise a command in a message.

use vstd::prelude::*;

verus! {

/// The prefix that is handed out for every message.
pub const DEFAULT_PREFIX: &'static str = "my_prefix";

/// For how many seconds an edited message is still read again as a command.
pub const EDIT_TRACKING_SECS: u64 = 3600;

/// The settings by which the framework finds the command in a message.
#[derive(Debug)]
pub struct PrefixOptions {
    /// The fixed prefix, where there is one.
    pub prefix: Option<String>,
    /// Whether the prefix is asked for anew with each message.
    pub dynamic_prefix: bool,
    /// For how many seconds an edited message is still read again as a
    /// command; `None` where edits are not followed.
    pub edit_tracker_secs: Option<u64>,
    /// Whether `HELLO` is the command `hello`.
    pub case_insensitive_commands: bool,
    /// Whether a mention of the bot counts as a prefix.
    pub mention_as_prefix: bool,
}

/// The bot's settings: no fixed prefix but one asked for with each message,
/// edits followed for an hour, command names matched without regard to case,
/// and a mention of the bot accepted as a prefix.
pub fn prefix_options() -> (options: PrefixOptions)
    ensures
        options.prefix is None,
        options.dynamic_prefix,
        options.edit_tracker_secs == Some(EDIT_TRACKING_SECS),
        options.case_insensitive_commands,
        options.mention_as_prefix,
{
    PrefixOptions {
        prefix: None,
        dynamic_prefix: true,
        edit_tracker_secs: Some(EDIT_TRACKING_SECS),
        case_insensitive_commands: true,
        mention_as_prefix: true,
    }
}

/// The prefix for an incoming message: [`DEFAULT_PREFIX`], for every message.
///
/// The shared prefix that the command `prefix` sets is not consulted, so that
/// command has no effect on how later messages are read. The function takes
/// no state and can therefore not depend on any.
pub fn resolve_dynamic_prefix() -> (prefix: Option<String>)
    ensures
        prefix matches Some(text) && text@ == DEFAULT_PREFIX@,
{
    Some(DEFAULT_PREFIX.to_string())
}

} // verus!
