pub mod bitstream;
pub mod canvas;
pub mod image;
pub mod net;
pub mod pcm;
pub mod pmng;
pub mod res;
pub mod screen;
pub mod shape;
pub mod text;
pub mod time;
pub mod ucs2;
