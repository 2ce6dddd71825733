//! The scheduling core of a small cooperative kernel: task records, a FIFO
//! ready queue, the single-core processor seat and the process-control
//! syscalls that drive them.
//!
//! The machine-level parts (the register swap, the hardware timer, address
//! translation) are collaborators: the functions here decide what is to be
//! done and hand plain values back to the code that performs it.
pub mod config;
pub mod task;
pub mod manager;
pub mod processor;
pub mod syscall;
