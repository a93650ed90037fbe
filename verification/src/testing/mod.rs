//! A store in memory, for tests.

pub mod mem_log_store;
pub mod mem_state_machine;
pub mod memstore;
