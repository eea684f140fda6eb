//! The commands of the command line tool.

use vstd::prelude::*;
use crate::text::str_eq;

verus! {

/// A command of the command line tool.
#[derive(Debug, Clone, Copy, PartialEq, Eq, Structural)]
pub enum Command {
    /// Pair the members of the channel and introduce each group.
    NewPairings,
    /// Send the midpoint check-in to the open meetings.
    Midpoint,
    /// Mark the open meetings scheduled and list them.
    Db,
}

/// Why the arguments name no command.
#[derive(Debug, Clone, Copy, PartialEq, Eq, Structural)]
pub enum CommandError {
    /// Not exactly one argument after the program name.
    WrongArgumentCount,
    /// An argument that names no command.
    UnknownCommand,
}

/// The command that the arguments name, the program name first.
pub open spec fn command_of(args: Seq<Seq<char>>) -> Result<Command, CommandError> {
    if args.len() != 2 {
        Err(CommandError::WrongArgumentCount)
    } else if args[1] == "new-pairings"@ {
        Ok(Command::NewPairings)
    } else if args[1] == "midpoint"@ {
        Ok(Command::Midpoint)
    } else if args[1] == "db"@ {
        Ok(Command::Db)
    } else {
        Err(CommandError::UnknownCommand)
    }
}

/// Reads the command from the arguments, the program name first.
pub fn parse_command(args: &Vec<String>) -> (r: Result<Command, CommandError>)
    ensures
        r == command_of(args.deep_view()),
{
    if args.len() != 2 {
        return Err(CommandError::WrongArgumentCount);
    }
    let arg = args[1].as_str();
    if str_eq(arg, "new-pairings") {
        Ok(Command::NewPairings)
    } else if str_eq(arg, "midpoint") {
        Ok(Command::Midpoint)
    } else if str_eq(arg, "db") {
        Ok(Command::Db)
    } else {
        Err(CommandError::UnknownCommand)
    }
}

} // verus!
