//! Precondition checks for tests that depend on capabilities of the running
//! kernel: a small condition interface, and the text rules behind two concrete
//! checks (a kernel configuration option, and the state of the `sched_ext`
//! scheduler class).

pub mod conditions;
pub mod io_error;
pub mod sched_ext;
pub mod text;
