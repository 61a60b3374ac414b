//! The snapshot store: the cached listing of snapshot names, and what each store
//! operation does given what is on disk.
//!
//! The store's operations are decided here and carried out by the caller: the
//! caller looks at the disk (`Presence`), asks the store for the file operation
//! to perform or the error to report, and performs it. `Disk` models the files
//! the operations touch, and the laws at the end of this module are stated over it.

use crate::names::{names_sorted, sort_names};
use vstd::prelude::*;

verus! {

/// What is on disk for one store operation on a named snapshot.
#[derive(Clone, Copy, Debug, PartialEq, Eq, Structural)]
pub struct Presence {
    /// The live config file exists.
    pub live_exists: bool,
    /// A snapshot file of that name exists.
    pub snapshot_exists: bool,
}

/// The file operation that a store operation performs on the named snapshot.
#[derive(Clone, Copy, Debug, PartialEq, Eq, Structural)]
pub enum FileOp {
    /// Copy the snapshot over the live config file, then ask a running
    /// multiplexer to reload it (a request whose failure is ignored).
    Restore,
    /// Copy the live config file into the snapshot.
    Capture,
    /// Remove the snapshot file.
    Remove,
}

/// Why a store operation failed.
#[derive(Debug)]
pub enum StoreError {
    /// The named snapshot does not exist.
    SnapshotNotFound(String),
    /// The live config file does not exist.
    LiveConfigNotFound,
    /// The snapshot that an update should overwrite does not exist.
    UpdateTargetNotFound(String),
    /// A snapshot of that name exists already, and saving never overwrites.
    AlreadyExists(String),
    /// The operating system refused a directory or file operation.
    Io(String),
    /// The user's home directory could not be determined.
    HomeDirUnavailable,
}

/// The mathematical value of a `StoreError`.
pub enum StoreFault {
    SnapshotNotFound(Seq<char>),
    LiveConfigNotFound,
    UpdateTargetNotFound(Seq<char>),
    AlreadyExists(Seq<char>),
    Io(Seq<char>),
    HomeDirUnavailable,
}

impl View for StoreError {
    type V = StoreFault;

    open spec fn view(&self) -> StoreFault {
        match self {
            StoreError::SnapshotNotFound(n) => StoreFault::SnapshotNotFound(n@),
            StoreError::LiveConfigNotFound => StoreFault::LiveConfigNotFound,
            StoreError::UpdateTargetNotFound(n) => StoreFault::UpdateTargetNotFound(n@),
            StoreError::AlreadyExists(n) => StoreFault::AlreadyExists(n@),
            StoreError::Io(m) => StoreFault::Io(m@),
            StoreError::HomeDirUnavailable => StoreFault::HomeDirUnavailable,
        }
    }
}

impl StoreFault {
    /// Whether this is one of the errors of a missing file.
    pub open spec fn is_not_found(self) -> bool {
        self is SnapshotNotFound || self is LiveConfigNotFound || self is UpdateTargetNotFound
    }

    /// The text that reports this error to the user.
    pub open spec fn message(self) -> Seq<char> {
        match self {
            StoreFault::SnapshotNotFound(n) => "Config file not found: "@ + n,
            StoreFault::LiveConfigNotFound => "No tmux config file found at ~/.tmux.conf"@,
            StoreFault::UpdateTargetNotFound(n) => "Config '"@ + n
                + "' does not exist. Use 'save' command to create a new config."@,
            StoreFault::AlreadyExists(n) => "Config '"@ + n
                + "' already exists. Use 'update' command to overwrite an existing config."@,
            StoreFault::Io(m) => m,
            StoreFault::HomeDirUnavailable => "Could not find home directory"@,
        }
    }
}

impl StoreError {
    /// Tests whether this is one of the errors of a missing file.
    pub fn is_not_found(&self) -> (r: bool)
        ensures
            r == self@.is_not_found(),
    {
        match self {
            StoreError::SnapshotNotFound(_) => true,
            StoreError::LiveConfigNotFound => true,
            StoreError::UpdateTargetNotFound(_) => true,
            _ => false,
        }
    }

    /// The text that reports this error to the user.
    pub fn message(&self) -> (r: String)
        ensures
            r@ == self@.message(),
    {
        match self {
            StoreError::SnapshotNotFound(n) => String::from_str("Config file not found: ").concat(
                n.as_str(),
            ),
            StoreError::LiveConfigNotFound => String::from_str(
                "No tmux config file found at ~/.tmux.conf",
            ),
            StoreError::UpdateTargetNotFound(n) => String::from_str("Config '").concat(
                n.as_str(),
            ).concat("' does not exist. Use 'save' command to create a new config."),
            StoreError::AlreadyExists(n) => String::from_str("Config '").concat(n.as_str()).concat(
                "' already exists. Use 'update' command to overwrite an existing config.",
            ),
            StoreError::Io(m) => m.clone(),
            StoreError::HomeDirUnavailable => String::from_str("Could not find home directory"),
        }
    }
}

/// The mathematical value of the result of a store operation.
pub open spec fn outcome_view(r: Result<FileOp, StoreError>) -> Result<FileOp, StoreFault> {
    match r {
        Ok(op) => Ok(op),
        Err(e) => Err(e@),
    }
}

/// Applying a snapshot restores it, if it exists.
pub open spec fn apply_outcome(name: Seq<char>, seen: Presence) -> Result<FileOp, StoreFault> {
    if !seen.snapshot_exists {
        Err(StoreFault::SnapshotNotFound(name))
    } else {
        Ok(FileOp::Restore)
    }
}

/// Saving captures the live file into a new snapshot: never over an existing one.
pub open spec fn save_outcome(name: Seq<char>, seen: Presence) -> Result<FileOp, StoreFault> {
    if !seen.live_exists {
        Err(StoreFault::LiveConfigNotFound)
    } else if seen.snapshot_exists {
        Err(StoreFault::AlreadyExists(name))
    } else {
        Ok(FileOp::Capture)
    }
}

/// Updating captures the live file over an existing snapshot: it never creates one.
pub open spec fn update_outcome(name: Seq<char>, seen: Presence) -> Result<FileOp, StoreFault> {
    if !seen.live_exists {
        Err(StoreFault::LiveConfigNotFound)
    } else if !seen.snapshot_exists {
        Err(StoreFault::UpdateTargetNotFound(name))
    } else {
        Ok(FileOp::Capture)
    }
}

/// Deleting removes a snapshot, if it exists.
pub open spec fn delete_outcome(name: Seq<char>, seen: Presence) -> Result<FileOp, StoreFault> {
    if !seen.snapshot_exists {
        Err(StoreFault::SnapshotNotFound(name))
    } else {
        Ok(FileOp::Remove)
    }
}

/// The store: the names of the snapshots in its directory, as listed when it was
/// opened.
pub struct ConfigManager {
    /// The snapshot names, in the order of `name_le`.
    pub configs: Vec<String>,
}

impl ConfigManager {
    /// Opens the store on a listing of the regular files of its directory.
    pub fn new(listing: Vec<String>) -> (r: Self)
        ensures
            r.configs@.to_multiset() == listing@.to_multiset(),
            r.configs@.len() == listing@.len(),
            names_sorted(r.configs@),
    {
        ConfigManager { configs: sort_names(listing) }
    }

    /// The cached listing, as it was when the store was opened.
    pub fn list(&self) -> (r: &Vec<String>)
        ensures
            r == &self.configs,
    {
        &self.configs
    }

    /// Decides what applying the snapshot `config_name` does.
    pub fn apply_config(&self, config_name: &str, seen: Presence) -> (r: Result<
        FileOp,
        StoreError,
    >)
        ensures
            outcome_view(r) == apply_outcome(config_name@, seen),
    {
        if !seen.snapshot_exists {
            Err(StoreError::SnapshotNotFound(config_name.to_owned()))
        } else {
            Ok(FileOp::Restore)
        }
    }

    /// Decides what deleting the snapshot `config_name` does.
    pub fn delete_config(&self, config_name: &str, seen: Presence) -> (r: Result<
        FileOp,
        StoreError,
    >)
        ensures
            outcome_view(r) == delete_outcome(config_name@, seen),
    {
        if !seen.snapshot_exists {
            Err(StoreError::SnapshotNotFound(config_name.to_owned()))
        } else {
            Ok(FileOp::Remove)
        }
    }

    /// Decides what saving the live file as the new snapshot `config_name` does.
    pub fn save_current_config(&self, config_name: &str, seen: Presence) -> (r: Result<
        FileOp,
        StoreError,
    >)
        ensures
            outcome_view(r) == save_outcome(config_name@, seen),
    {
        if !seen.live_exists {
            Err(StoreError::LiveConfigNotFound)
        } else if seen.snapshot_exists {
            Err(StoreError::AlreadyExists(config_name.to_owned()))
        } else {
            Ok(FileOp::Capture)
        }
    }

    /// Decides what overwriting the snapshot `config_name` with the live file does.
    pub fn update_config(&self, config_name: &str, seen: Presence) -> (r: Result<
        FileOp,
        StoreError,
    >)
        ensures
            outcome_view(r) == update_outcome(config_name@, seen),
    {
        if !seen.live_exists {
            Err(StoreError::LiveConfigNotFound)
        } else if !seen.snapshot_exists {
            Err(StoreError::UpdateTargetNotFound(config_name.to_owned()))
        } else {
            Ok(FileOp::Capture)
        }
    }
}

/// The files that the store's operations touch: the live config file's bytes,
/// if it exists, and each snapshot's bytes by name.
pub struct Disk {
    pub live: Option<Seq<u8>>,
    pub snapshots: Map<Seq<char>, Seq<u8>>,
}

impl Disk {
    /// What an operation on the snapshot `name` finds on this disk.
    pub open spec fn presence(self, name: Seq<char>) -> Presence {
        Presence { live_exists: self.live is Some, snapshot_exists: self.snapshots.contains_key(name) }
    }

    /// The disk after `op` on the snapshot `name`.
    pub open spec fn perform(self, name: Seq<char>, op: FileOp) -> Disk {
        match op {
            FileOp::Restore => Disk { live: Some(self.snapshots[name]), snapshots: self.snapshots },
            FileOp::Capture => Disk {
                live: self.live,
                snapshots: self.snapshots.insert(name, self.live.unwrap()),
            },
            FileOp::Remove => Disk { live: self.live, snapshots: self.snapshots.remove(name) },
        }
    }

    /// The disk after a store operation on `name` that decided `outcome`: an
    /// error leaves it as it was.
    pub open spec fn after(self, name: Seq<char>, outcome: Result<FileOp, StoreFault>) -> Disk {
        match outcome {
            Ok(op) => self.perform(name, op),
            Err(_) => self,
        }
    }
}

/// Saving twice under one name, while the live file exists: the second save is
/// refused because the snapshot exists, and leaves the disk as the first left it;
/// where the name was new, the snapshot holds what the live file held.
pub proof fn lemma_save_twice(d: Disk, name: Seq<char>)
    requires
        d.live is Some,
    ensures
        ({
            let first = d.after(name, save_outcome(name, d.presence(name)));
            let second = save_outcome(name, first.presence(name));
            &&& second == Err::<FileOp, StoreFault>(StoreFault::AlreadyExists(name))
            &&& first.after(name, second) == first
            &&& !d.snapshots.contains_key(name) ==> first.snapshots[name] == d.live.unwrap()
            &&& d.snapshots.contains_key(name) ==> first == d
        }),
{
}

/// Updating a name that has no snapshot fails with a missing-file error and
/// leaves the disk unchanged; with the live file present, the error names the
/// missing snapshot.
pub proof fn lemma_update_unsaved(d: Disk, name: Seq<char>)
    requires
        !d.snapshots.contains_key(name),
    ensures
        ({
            let outcome = update_outcome(name, d.presence(name));
            &&& outcome is Err
            &&& outcome->Err_0.is_not_found()
            &&& d.live is Some ==> outcome == Err::<FileOp, StoreFault>(
                StoreFault::UpdateTargetNotFound(name),
            )
            &&& d.after(name, outcome) == d
        }),
{
}

/// Applying an existing snapshot makes the live file hold exactly the
/// snapshot's bytes, and changes no snapshot.
pub proof fn lemma_apply_restores(d: Disk, name: Seq<char>)
    requires
        d.snapshots.contains_key(name),
    ensures
        ({
            let outcome = apply_outcome(name, d.presence(name));
            let applied = d.after(name, outcome);
            &&& outcome == Ok::<FileOp, StoreFault>(FileOp::Restore)
            &&& applied.live == Some(d.snapshots[name])
            &&& applied.snapshots == d.snapshots
        }),
{
}

} // verus!
