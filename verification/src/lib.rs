//! Named property documents of models: the record that is stored, the
//! replies of the three operations of the service, the contract of the
//! collection behind them, and the steps by which the service reaches its
//! database at startup.

pub mod config;
pub mod gateway;
pub mod laws;
pub mod record;
pub mod response;
pub mod service;
pub mod store;
