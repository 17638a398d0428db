//! A command gateway between a simulation front-end and an external
//! world-state process: fixed acknowledgements for start and stop requests,
//! and a world-state query that passes the process's output through verbatim
//! or substitutes a fixed fallback payload when the process fails or is
//! silent.

pub mod gateway;
pub mod text;
