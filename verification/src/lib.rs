pub mod cli;
pub mod config;
pub mod invocation;
pub mod orphans;
pub mod outcome;
pub mod wrapper;
