//! A minimal sensor-polling daemon library.
//!
//! The library holds the verified core of the daemon: decoding a fixed-width
//! sample from raw bytes, resolving and appending to a durable line-oriented
//! log, and the per-tick decisions of the poll loop. Opening files, argument
//! handling and signal delivery live with the surrounding program, which hands
//! this library plain values and carries out the actions it decides.

pub mod logger;
pub mod poll;
pub mod sensor;
