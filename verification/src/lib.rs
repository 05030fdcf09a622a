//! Verified decoders for classic Macintosh game data: resource forks,
//! QuickDraw PICT pictures, legacy MacSki course files, and the integer
//! decision rules of the skiing game.

pub mod bytes;
pub mod shared;
pub mod text;
pub mod course_file;
pub mod packbits;
pub mod region;
pub mod parse;
pub mod pixdata;
pub mod copybits;
pub mod raster;
pub mod render;
pub mod drawing_context;
pub mod records;
pub mod fields;
pub mod v1;
pub mod v2;
pub mod pict;
pub mod resfork;
pub mod macski;
pub mod convert;
pub mod game;
