//! The decisions and display text of a Pokédex browser, kept apart from the
//! window toolkit, the network client and the file system that run around them.
pub mod app;
pub mod laws;
pub mod pokemon;
pub mod text;
pub mod views;
