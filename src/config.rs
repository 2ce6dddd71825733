//! Constants shared by the scheduler and the syscall layer.
use vstd::prelude::*;

verus! {

/// Number of syscall identifiers that a task keeps a counter for.
pub const MAX_SYSCALL_NUM: usize = 500;

/// Syscall identifier of `exit`.
pub const SYSCALL_EXIT: usize = 93;

/// Syscall identifier of `yield`.
pub const SYSCALL_YIELD: usize = 124;

/// Syscall identifier of `get_time`.
pub const SYSCALL_GET_TIME: usize = 169;

/// Syscall identifier of `task_info`.
pub const SYSCALL_TASK_INFO: usize = 410;

/// Microseconds in one second.
pub const USEC_PER_SEC: usize = 1000000;

} // verus!
