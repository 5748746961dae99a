//! Decision logic of a tray-resident desktop shell.

pub mod guarantees;
pub mod menu;
pub mod router;
pub mod startup;
pub mod tray;
pub mod version;
pub mod window;
