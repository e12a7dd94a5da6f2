//! Binding generation for a C++ engine: header normalisation, structural
//! extraction, transparency classification and emission of the glue text.

pub mod binders;
pub mod classify;
pub mod emit;
pub mod emit_class;
pub mod emit_method;
pub mod extract;
pub mod files;
pub mod model;
pub mod normalize;
pub mod objects;
pub mod primitives;
pub mod registry;
pub mod scan;
pub mod schedule;
pub mod signature;
pub mod syntax;
pub mod text;
