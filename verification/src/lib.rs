pub mod capture;
pub mod error;
pub mod format;
pub mod frame;
pub mod geometry;
pub mod pixel;
mod text;
