//! Wallpaper picker logic for Hyprland: configuration, path handling, theme
//! colours, carousel navigation and the wallpaper-apply protocol.

pub mod text;
pub mod paths;
pub mod config;
pub mod wallust;
pub mod theme;
pub mod carousel;
pub mod wallpaper;
