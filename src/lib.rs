//! A personal time tracker: completed work records, a read cache in front of
//! their store, and the sessions that are still running.

pub mod cache;
pub mod manager;
pub mod record;
pub mod session;
pub mod time;
pub mod tracker;

pub use manager::WorkManager;
pub use record::WorkRecord;
pub use session::ActiveWorkSession;
