//! What holds of the interface as a whole, beyond any one function.
pub mod errors;
pub mod main_loop;
pub mod messages;
pub mod screen;
pub mod start;
pub mod tasks;
