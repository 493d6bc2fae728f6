//! The `socket` and `sys` builtin modules of a Python virtual machine: the
//! checks, decisions and state changes of their functions, with the
//! operating-system work left to the caller.
pub mod args;
pub mod pyint;
pub mod text;
pub mod socket;
pub mod sysmodule;
pub mod socket_laws;
pub mod sys_laws;
