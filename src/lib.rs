//! Coordination of code reviews through a shared session document.
//!
//! Reviewing agents and an applicator share a session directory holding a JSON document, a lock
//! marker and write-once report files. This library holds the document model, the rules of
//! each coordination operation as a change of that model, the decisions of the lock and of
//! the polling wait, and the names of the files involved.
pub mod clock;
pub mod error;
pub mod id;
pub mod ids;
pub mod lock;
pub mod model;
pub mod names;
pub mod paths;
pub mod reports;
pub mod session;
pub mod text;
pub mod wait;
