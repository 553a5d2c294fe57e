//! What the command line asks for: which end of the connection to be,
//! where to listen or connect, and under which name to play.

use vstd::prelude::*;
use vstd::string::*;
use crate::session::Role;

verus! {

/// Why a command line was turned down.
#[derive(Clone, Copy, Debug, PartialEq, Eq, Structural)]
pub enum LaunchError {
    /// Role, address or name is missing.
    MissingArguments,
    /// The role is neither `s` nor `c`.
    UnknownRole,
}

impl LaunchError {
    /// The words to show to the operator.
    pub fn message(self) -> (text: &'static str)
        ensures
            text@ == match self {
                LaunchError::MissingArguments => "Invalid command line arguments."@,
                LaunchError::UnknownRole =>
                    "Invalid command line arguments. Please select if server or client with s or c as first argument"@,
            },
    {
        match self {
            LaunchError::MissingArguments => "Invalid command line arguments.",
            LaunchError::UnknownRole =>
                "Invalid command line arguments. Please select if server or client with s or c as first argument",
        }
    }
}

/// A command line that was understood.
#[derive(Clone, Debug, PartialEq, Eq)]
pub struct Launch {
    pub role: Role,
    /// The port to listen on for a host, the address to reach for a
    /// joiner.
    pub address: String,
    /// The local display name.
    pub name: String,
}

/// The role that a flag stands for: `s` for the host, `c` for the joiner.
pub open spec fn role_of(flag: Seq<char>) -> Option<Role> {
    if flag == seq!['s'] {
        Some(Role::Host)
    } else if flag == seq!['c'] {
        Some(Role::Joiner)
    } else {
        None
    }
}

/// What a command line asks for. Its first word is the program's name;
/// role, address and name follow in this order.
pub open spec fn launch_of(args: Seq<Seq<char>>) -> Result<(Role, Seq<char>, Seq<char>), LaunchError> {
    if args.len() < 4 {
        Err(LaunchError::MissingArguments)
    } else {
        match role_of(args[1]) {
            Some(role) => Ok((role, args[2], args[3])),
            None => Err(LaunchError::UnknownRole),
        }
    }
}

/// The words of a command line, each as a sequence of characters.
pub open spec fn words(args: Seq<String>) -> Seq<Seq<char>> {
    Seq::new(args.len(), |i: int| args[i]@)
}

/// Reads the command line.
pub fn parse_launch(args: &Vec<String>) -> (parsed: Result<Launch, LaunchError>)
    ensures
        match launch_of(words(args@)) {
            Ok((role, address, name)) => parsed matches Ok(launch) && launch.role == role
                && launch.address@ == address && launch.name@ == name,
            Err(error) => parsed == Err::<Launch, LaunchError>(error),
        },
{
    if args.len() < 4 {
        return Err(LaunchError::MissingArguments);
    }
    proof {
        reveal_strlit("s");
        reveal_strlit("c");
        assert("s"@ =~= seq!['s']);
        assert("c"@ =~= seq!['c']);
    }
    let role = if args[1] == String::from_str("s") {
        Role::Host
    } else if args[1] == String::from_str("c") {
        Role::Joiner
    } else {
        return Err(LaunchError::UnknownRole);
    };
    Ok(Launch { role, address: args[2].clone(), name: args[3].clone() })
}

} // verus!
