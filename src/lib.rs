//! Domain layer of a local-first mood journal: daily check-ins, their
//! validation and storage encoding, the schema catalog, and the error
//! taxonomy that crosses the boundary to the desktop shell.

pub mod checkin;
pub mod codec;
pub mod date;
pub mod error;
pub mod micro_task;
pub mod migration;
