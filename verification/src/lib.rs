//! Lowering of an already-parsed TypeScript/TSX syntax tree into a flat,
//! JSON-serialized schema with exact source positions.
//!
//! The input is a mirror of the parsed tree holding plain values: byte
//! strings, raw spans in the parser's own coordinates, and flags. The
//! library walks the module's top-level items in document order, lowers the
//! curated subset of constructs into tagged records, and renders the whole
//! result as JSON bytes. [`items::lower_module_to_json`] is the module-level
//! entry point; [`expr::lower_expr_to_json`] lowers one standalone
//! expression.

pub mod ast;
pub mod calls;
pub mod expr;
pub mod items;
pub mod jout;
pub mod out_node;
pub mod pat;
pub mod pos;
pub mod sigs;
