//! Supervision logic for a local viewer that runs its content server as a
//! child process: locating the server binary, discovering its port from its
//! startup output, resolving the race between "open this file" notifications
//! and readiness, and building the navigation address.

pub mod encode;
pub mod text;
pub mod sniff;
pub mod coordinator;
pub mod stage;
pub mod locate;
pub mod supervisor;
