pub mod apca;
pub mod base16;
pub mod blend;
pub mod extract;
pub mod roles;
pub mod scheme;
pub mod types;
