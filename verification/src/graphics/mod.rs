pub mod blt;
pub mod canvas;
pub mod color;
pub mod eg_support;
pub mod image;
pub mod layer;
pub mod shape;
pub mod text;
