pub mod attendance;
pub mod consistency;
pub mod contract;
pub mod error;
pub mod laws;
pub mod list;
pub mod model;
pub mod session;
pub mod storage;
pub mod table;
pub mod types;
