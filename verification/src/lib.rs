//! A facade over six file and folder operations of a desktop shell.
//!
//! The host performs each operating-system call itself and hands the library
//! what the call reported. The library decides what the caller is told: the
//! payload on success, a message with a fixed prefix on failure. For the one
//! operation that starts a program, the library also decides which program the
//! host starts and with which argument.

pub mod commands;
pub mod failure;
pub mod platform;
