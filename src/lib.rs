//! Post-installation setup for an Arch Linux system: the catalog records,
//! the resolution of prompt answers, and the ordered plan of external
//! commands that carries out a user's choices.

pub mod model;
pub mod prompt;
pub mod command;
pub mod plan;
pub mod services;
pub mod laws;
