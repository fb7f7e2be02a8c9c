//! Parser and renderer for the textual CAN network description format (DBC).
//!
//! The library parses a whole document into an abstract syntax tree and
//! renders the tree back to text.  Every parsing function is specified by a
//! mathematical mirror (a `spec` function on the input's character sequence),
//! and every renderer is specified by the exact character sequence it emits.

pub mod attribute_default;
pub mod attribute_definition;
pub mod attribute_value;
pub mod bit_timing;
pub mod char_string;
pub mod comment;
pub mod env_var;
pub mod env_var_data;
pub mod env_var_value_descriptions;
pub mod error;
pub mod lexer;
pub mod message;
pub mod network_ast;
pub mod new_symbols;
pub mod nodes;
pub mod number;
pub mod signal;
pub mod signal_value_descriptions;
pub mod text;
pub mod value_descriptions;
pub mod value_tables;
pub mod version;
