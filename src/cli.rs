use vstd::prelude::*;
use crate::commands::{install, uninstall, update};

verus! {

/// The command line: one subcommand.
#[derive(Debug)]
pub struct Cli {
    pub subcommand: SubCommand,
}

/// What the command line asks for.
#[derive(Debug)]
pub enum SubCommand {
    Install(install::Args),
    Uninstall(uninstall::Args),
    Update(update::Args),
}

} // verus!
