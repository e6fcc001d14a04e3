//! Safe, verified modelling of an input-method-engine binding layer.
//!
//! The native engine itself (schema-driven composition, candidate generation,
//! deployment of user data) is an external collaborator reached through a thin
//! unverified shell.  What this crate verifies is everything the binding layer
//! itself is responsible for: configuration ownership, the process-wide
//! lifecycle state machine, notification-driven deployment synchronization,
//! session liveness and idempotent destruction, and the bounded decoding and
//! exactly-once release of native snapshots.
//!
//! Native answers (a freshly created session's liveness, a key's
//! consumed/pass-through flag, a snapshot structure) enter the library as
//! plain values; every decision taken on them is specified and proved.

pub mod config;
pub mod engine;
pub mod errors;
pub mod paths;
pub mod session;
pub mod snapshot;
pub mod state;
pub mod text;

pub use config::{Traits, TraitsField};
pub use engine::Engine;
pub use errors::Error;
pub use paths::{default_shared_data_dir, default_user_data_dir, user_data_dir_under};
pub use session::{create_session, invalidate_session, KeyEvent, KeyStatus, Session};
pub use snapshot::{
    Candidate, Commit, Composition, Context, Menu, RawCommit, RawComposition, RawContext, RawMenu,
    RawStatus, Status,
};
pub use state::{
    finalize, full_deploy_begin, initialize, notify, set_notification_handler, setup,
    start_maintenance, DeployResult, EngineState, SnapshotKind, StateView,
};
