//! Keeps track of filesystem paths together with their project metadata,
//! stored as one record per path in a SQLite database.
pub mod codec;
pub mod clock;
pub mod entry;
pub mod sql;
pub mod store;
