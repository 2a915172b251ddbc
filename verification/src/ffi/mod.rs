//! The agent's hooking of the game's code, and the objects the game hands to
//! its hooks.
pub mod class4;
pub mod hook;
