//! The bot's commands: what each one answers and does, and the table under
//! which they are announced to the chat service.

use crate::state::{after_set, SharedPrefixState};
use vstd::prelude::*;

verus! {

/// The three commands of the bot.
#[derive(Clone, Copy, Debug, PartialEq, Eq, Structural)]
pub enum Handler {
    Hello,
    Wood,
    Prefix,
}

/// One row of the command table: the name a user types, the ways in which
/// the command can be invoked, and the handler that serves it.
#[derive(Debug)]
pub struct CommandDescriptor {
    pub name: String,
    /// Offered in the chat service's command menu.
    pub slash_command: bool,
    /// Invocable by a message that starts with the prefix.
    pub prefix_command: bool,
    pub handler: Handler,
}

/// The name under which each handler is announced.
pub open spec fn name_of(handler: Handler) -> Seq<char> {
    match handler {
        Handler::Hello => "hello"@,
        Handler::Wood => "wood"@,
        Handler::Prefix => "prefix"@,
    }
}

/// A row of the table as it has to be: the handler under its own name,
/// invocable both ways.
pub open spec fn describes(row: CommandDescriptor, handler: Handler) -> bool {
    &&& row.name@ == name_of(handler)
    &&& row.slash_command
    &&& row.prefix_command
    &&& row.handler == handler
}

/// The row of one handler.
pub fn descriptor(handler: Handler) -> (row: CommandDescriptor)
    ensures
        describes(row, handler),
{
    let name = match handler {
        Handler::Hello => "hello".to_string(),
        Handler::Wood => "wood".to_string(),
        Handler::Prefix => "prefix".to_string(),
    };
    CommandDescriptor { name, slash_command: true, prefix_command: true, handler }
}

/// The command table, in the order in which the commands are announced:
/// `hello`, `wood`, `prefix`.
pub fn commands() -> (table: Vec<CommandDescriptor>)
    ensures
        table@.len() == 3,
        describes(table@[0], Handler::Hello),
        describes(table@[1], Handler::Wood),
        describes(table@[2], Handler::Prefix),
{
    let mut table: Vec<CommandDescriptor> = Vec::new();
    table.push(descriptor(Handler::Hello));
    table.push(descriptor(Handler::Wood));
    table.push(descriptor(Handler::Prefix));
    table
}

/// The answer of `hello`: the text `world!`. The command has no access to
/// the shared prefix and so leaves it as it is.
pub fn hello() -> (reply: String)
    ensures
        reply@ == "world!"@,
{
    "world!".to_string()
}

/// The answer of `wood`: the text `world!`. The command has no access to the
/// shared prefix and so leaves it as it is.
pub fn wood() -> (reply: String)
    ensures
        reply@ == "world!"@,
{
    "world!".to_string()
}

/// The command `prefix`: the text that the user gave becomes the shared
/// prefix, unchecked and untrimmed. The command sends no answer.
pub fn prefix(state: &mut SharedPrefixState, prefix: String)
    ensures
        final(state)@ == after_set(old(state)@, prefix@),
        final(state)@ == Some(prefix@),
{
    state.set_prefix(prefix);
}

} // verus!
