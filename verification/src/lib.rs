//! Platform-neutral core for three independent host queries: machine
//! identity, filesystem capacity, and external command output handling.
//!
//! Every decision the three queries make is implemented and verified here;
//! the operating-system calls themselves (filesystem statistics, process
//! spawning, file reads) are performed by the host around this crate, which
//! hands their raw results to the functions below as plain values.

pub mod command;
pub mod os_release;
pub mod disk_space;
pub mod system_info;
pub mod text;
