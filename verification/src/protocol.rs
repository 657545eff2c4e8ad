pub mod addresses;
pub mod codec;
pub mod commands;
pub mod iu;
