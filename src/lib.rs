//! Named snapshots of a terminal multiplexer's config file: the ordering and
//! naming rules of the snapshot store, the decisions of its operations, and the
//! interactive session that browses and edits the store.

pub mod cli;
pub mod names;
pub mod session;
pub mod store;

pub use cli::{Cli, Commands};
pub use names::ensure_conf_extension;
pub use session::{App, InputMode};
pub use store::{ConfigManager, FileOp, Presence, StoreError};
