pub mod error;
pub mod utils;
pub mod pixel;
pub mod classify;
pub mod codec;
pub mod converter;
pub mod policy;
