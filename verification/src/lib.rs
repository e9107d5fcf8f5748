//! Thermal Lab: the verified core of a tool that measures what capping the CPU turbo does
//! to temperatures and power draw, and switches the cap live.

pub mod autostart;
pub mod capabilities;
pub mod flyout;
pub mod i18n;
pub mod phases;
pub mod power;
pub mod sensors;
pub mod settings;
pub mod text;
pub mod tools;
pub mod tray;
pub mod update;
