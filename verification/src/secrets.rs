//! Setting a project secret: the command's arguments and what value is sent.

use vstd::prelude::*;

verus! {

/// Arguments of setting a secret: its name, and its value when given on the
/// command line rather than piped in.
pub struct SetSecretArgs {
    pub name: String,
    pub value: Option<String>,
}

/// The secrets subcommands.
pub enum SecretsSubCommand {
    SetSecret(SetSecretArgs),
}

/// The value a secret is set to: the one given on the command line, or what
/// was piped in when none was.
pub fn secret_value(given: Option<String>, piped: String) -> (r: String)
    ensures
        match given {
            Some(v) => r == v,
            None => r == piped,
        },
{
    match given {
        Some(v) => v,
        None => piped,
    }
}

} // verus!
