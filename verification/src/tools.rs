//! Tool execution: the policy that decides what may run and for how long,
//! and the supervisor that keeps account of every external process.

pub mod executor;
pub mod process;

pub use executor::ToolExecutor;
pub use process::ProcessManager;
