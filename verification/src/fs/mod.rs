pub mod attributes;
pub mod copy;
pub mod file;
pub mod fs;
pub mod metadata;
pub mod path;
pub mod readdir;
