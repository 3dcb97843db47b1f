//! Supervision of a backend worker process: reading the port it announces
//! on its standard output, keeping that port in a write-once registry,
//! classifying its standard error, and turning its lifecycle into
//! notifications for the front end.

pub mod laws;
pub mod port;
pub mod registry;
pub mod severity;
pub mod supervisor;
pub mod text;
