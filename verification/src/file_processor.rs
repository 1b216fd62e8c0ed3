//! File helpers handed to the surrounding program.

pub mod reader;
pub mod writer;

pub use reader::FileReader;
pub use writer::FileWriter;
