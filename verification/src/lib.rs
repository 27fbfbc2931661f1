//! Text extraction building blocks for PDF documents: CMap parsing,
//! character encodings, content stream tokenizing and text normalization.

pub mod text_std;
pub mod cos_helpers;
pub mod text_state;
pub mod normalizer;
pub mod tables;
pub mod cmap;
pub mod cmap_lexer;
pub mod glyph_list;
pub mod glyph_data;
pub mod cmap_parser;
pub mod content_parser;
pub mod encoding;
pub mod predefined;
pub mod dictionary;
pub mod cmap_manager;
pub mod widths;
pub mod font;
pub mod engine;
pub mod basic_text;
pub mod document;
pub mod laws;
