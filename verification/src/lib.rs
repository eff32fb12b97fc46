//! Planning and presentation logic for a command-line front end to
//! `machinectl`: which invocations a command stands for, which records a
//! selection picks, and what the resulting tables hold.
//!
//! The library never touches the outside world itself. A [`manager::Session`]
//! hands out one [`manager::Action`] at a time and is told by a
//! [`manager::Event`] what came of it.
pub mod args;
pub mod clock;
pub mod data_format;
pub mod data_structs;
pub mod images;
pub mod machines;
pub mod manager;
pub mod process;
pub mod text;
pub mod utilities;
