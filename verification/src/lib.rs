//! Line-oriented recognition of the structural regions of a Lua source file.

pub mod text;
pub mod line_type;
pub mod doc_map;
pub mod state;
pub mod pattern;
pub mod signature;
pub mod parser;
pub mod scan;
