//! The execution runtime: executable memory, process bookkeeping and scheduling.
pub mod load_exec;
pub mod manager;
pub mod runner;
pub mod schedular;
