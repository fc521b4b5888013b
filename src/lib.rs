pub mod commands;
pub mod laws;
pub mod tamagotchi;

pub use tamagotchi::Tamagotchi;
