//! Accessor methods for message structs, written out as source text.
//!
//! A struct that derives `::prost_derive::Message` gets an `impl` block with two
//! constructors and, for each named field, the accessors that the field's wire kind calls
//! for: `has_`, `clear_`, `set_`, `get_`, `mut_` and `take_`.
//!
//! - `decl` holds declarations as plain values;
//! - `kind` decides a field's kind from its annotations;
//! - `methods` says which accessors a kind brings and writes them;
//! - `generate` goes from declarations to the text of their blocks;
//! - `syntax` reads declarations out of source text;
//! - `wrapper` ties a source file to the text written for it;
//! - `text` holds the operations on text that the others share.
//!
//! Every function states exactly what it returns, over the views of its arguments, and
//! Verus proves it. `syntax` is where the parser is called: what a node of the syntax
//! tree holds is given a name there, and what is taken on trust is confined to it.

pub mod decl;
pub mod error;
pub mod generate;
pub mod kind;
pub mod methods;
pub mod syntax;
pub mod text;
pub mod wrapper;
