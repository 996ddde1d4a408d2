pub mod cache;
pub mod cli;
pub mod color;
pub mod config;
pub mod engine;
pub mod error;
pub mod export;
pub mod image;
pub mod num;
pub mod paths;
pub mod template;
pub mod text;
pub mod wallpaper;
pub mod watch;
