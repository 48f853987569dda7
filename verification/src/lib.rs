//! Model and decision logic of a terminal front end for burning files to
//! optical media: the drive list, the dashboard's menus and command line,
//! and the protocol that drives one burn job.

pub mod text;
pub mod hw_enum;
pub mod burn_logic;
pub mod ui;
