//! Hardware report of a machine for remote model scheduling: its GPUs, their
//! memory, the host's memory and CPU, and the configuration of the service
//! that serves the report.

pub mod config;
pub mod gpu;
pub mod specs;
pub mod text;
