//! The console of a Quake engine client: the line being edited, the history
//! of entered lines, and the registries of commands and configuration
//! variables.

pub mod text;
pub mod input;
pub mod history;
pub mod cvars;
pub mod cmds;
pub mod console;
