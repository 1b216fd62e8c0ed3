//! Execution bridge between a native multi-threaded runtime and a cooperative
//! scripting runtime: task dispatch, delegated calls, value exchange, error
//! translation and supervision of external tools.
//!
//! Everything here decides and records; nothing here waits, starts a process
//! or touches a file. The program around the library does those things and
//! reports back what happened.

pub mod agent_core;
pub mod async_bridge;
pub mod chunks;
pub mod data_exchange;
pub mod error;
pub mod error_handling;
pub mod file_processor;
pub mod report;
pub mod system;
pub mod task;
pub mod text;
pub mod tools;
pub mod value;
pub mod wire;

pub use agent_core::AgentCore;
pub use agent_core::Dispatch;
pub use agent_core::Step;
pub use async_bridge::AsyncBridge;
pub use async_bridge::BridgeTicket;
pub use data_exchange::DataExchange;
pub use data_exchange::ExchangeEnvelope;
pub use error::ErrorKind;
pub use error::ErrorRecord;
pub use error::Origin;
pub use error_handling::ErrorHandler;
pub use error_handling::ForeignException;
pub use file_processor::FileReader;
pub use file_processor::FileWriter;
pub use system::EnvironmentManager;
pub use system::PathUtils;
pub use task::Target;
pub use task::TaskDescriptor;
pub use task::TaskResult;
pub use tools::ProcessManager;
pub use tools::ToolExecutor;
pub use value::Value;
pub use value::ValueType;
