//! A small structural type algebra: a closed set of type shapes (primitives,
//! literals, tuples, arrays, records, index signatures, unions,
//! intersections), an assignability engine that decides structural subtyping
//! between two types, and a renderer that prints a type as a textual
//! structural-type expression.
//!
//! The data model lives in [`ty`], the assignability engine in
//! [`assignable`], its laws in [`laws`], the renderer in [`render`], and the
//! [`shapes::Shape`] trait with implementations for plain building blocks in
//! [`shapes`].

pub mod assignable;
mod clone;
pub mod laws;
pub mod options;
pub mod render;
pub mod shapes;
pub mod ty;

pub use crate::assignable::is_assignable;
pub use crate::options::RenderOptions;
pub use crate::options::ShapeOptions;
pub use crate::options::ShapeOptionsKind;
pub use crate::render::render;
pub use crate::shapes::Shape;
pub use crate::ty::is_wf;
pub use crate::ty::Array;
pub use crate::ty::Literal;
pub use crate::ty::Object;
pub use crate::ty::Property;
pub use crate::ty::Record;
pub use crate::ty::Tuple;
pub use crate::ty::Type;
