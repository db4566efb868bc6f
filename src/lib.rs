//! Reads a digital elevation model written as a JPGIS/GML coverage document
//! into a rectified grid: its size, origin, cell size, reference system and
//! the row-major list of elevation samples.
pub mod text;
pub mod number;
pub mod model;
pub mod token;
pub mod extract;
pub mod normalize;
pub mod parse;
pub mod xml_parser;
pub mod writer;
pub mod laws;
