pub mod decode;
pub mod download;
pub mod loader;
