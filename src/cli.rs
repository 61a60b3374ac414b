//! The one-shot command surface: each command names one store operation.

use crate::names::{ensure_conf_extension, with_conf_suffix};
use vstd::prelude::*;

verus! {

/// A command given on the command line.
pub enum Commands {
    /// List all saved snapshots.
    List,
    /// Apply a snapshot by name.
    Apply { name: String },
    /// Save the live config as a new snapshot.
    Save { name: String },
    /// Overwrite an existing snapshot with the live config.
    Update { name: String },
    /// Delete a snapshot by name.
    Delete { name: String },
}

/// The command line: a command, or none for the interactive session.
pub struct Cli {
    pub command: Option<Commands>,
}

impl Commands {
    /// The name that the command was given, if it takes one.
    pub open spec fn given_name(&self) -> Option<Seq<char>> {
        match self {
            Commands::List => None,
            Commands::Apply { name } => Some(name@),
            Commands::Save { name } => Some(name@),
            Commands::Update { name } => Some(name@),
            Commands::Delete { name } => Some(name@),
        }
    }

    /// The snapshot that the command works on: its name with `.conf` appended
    /// where it lacks it.
    pub fn snapshot_name(&self) -> (r: Option<String>)
        ensures
            match self.given_name() {
                None => r is None,
                Some(g) => r matches Some(n) && n@ == with_conf_suffix(g),
            },
    {
        match self {
            Commands::List => None,
            Commands::Apply { name } => Some(ensure_conf_extension(name.clone())),
            Commands::Save { name } => Some(ensure_conf_extension(name.clone())),
            Commands::Update { name } => Some(ensure_conf_extension(name.clone())),
            Commands::Delete { name } => Some(ensure_conf_extension(name.clone())),
        }
    }
}

} // verus!
