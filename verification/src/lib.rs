//! Verified core of a software development kit for feature phones that run
//! the MediaTek Runtime Environment (MRE).

pub mod stack;
pub mod strings;
pub mod seqs;
pub mod app;
pub mod entropy;
pub mod msg;
pub mod process;
pub mod res;
pub mod task;
pub mod crash;
pub mod ffi;
pub mod fs;
pub mod graphics;
pub mod keyboard;
pub mod logger;
pub mod net;
pub mod sys;
pub mod time;
