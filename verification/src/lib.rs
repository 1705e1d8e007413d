//! Decision logic for driving a non-blocking protocol engine from a
//! cooperative scheduler: what to wait for after a would-block signal,
//! when to retry, and when to stop.

pub mod adapter;
pub mod adapter_run;
pub mod attempt;
pub mod bridge;
pub mod cursor;
pub mod direction;
pub mod engine;
pub mod progress;
pub mod replay;
pub mod sftp;
