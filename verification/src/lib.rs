//! A splash-screen bootstrapper for a two-window desktop shell.
//!
//! On launch the shell shows a splash window, waits for a fixed
//! initialization delay, then closes the splash window and reveals the main
//! window. The same swap can be requested on demand. This crate holds the
//! decisions: which steps the host has to perform, in which order, and what
//! they do to the two windows. Performing the steps against a windowing
//! toolkit is left to the host.

pub mod window;
pub mod step;
pub mod shell;
pub mod boot;
pub mod laws;
