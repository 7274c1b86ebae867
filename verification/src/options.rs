//! Options handed to shape producers and to the renderer.

use vstd::prelude::*;

verus! {

/// The direction a shape is produced for: the type of what serialization
/// emits, or the type of what deserialization accepts.
#[derive(Debug, Clone, Copy, PartialEq, Eq, Structural)]
pub enum ShapeOptionsKind {
    Serialize,
    Deserialize,
}

/// Options that steer how a shape is produced for a data definition.
///
/// The flags say how an optional field of the host data definition widens its
/// inner type: whether the property itself may be absent, and whether
/// `Undefined` / `Null` join the union.
#[derive(Debug, Clone, Copy, PartialEq, Eq, Structural)]
pub struct ShapeOptions {
    pub kind: ShapeOptionsKind,
    pub option_is_optional: bool,
    pub option_add_undefined: bool,
    pub option_add_null: bool,
}

impl ShapeOptions {
    /// The conventional options for the serialize direction: optional fields
    /// are always present in the output, with `null` standing for absence.
    pub fn for_serialize() -> (r: Self)
        ensures
            r == (ShapeOptions {
                kind: ShapeOptionsKind::Serialize,
                option_is_optional: false,
                option_add_undefined: false,
                option_add_null: true,
            }),
    {
        Self {
            kind: ShapeOptionsKind::Serialize,
            option_is_optional: false,
            option_add_undefined: false,
            option_add_null: true,
        }
    }

    /// The conventional options for the deserialize direction: optional
    /// fields may be absent, `undefined`, or `null`.
    pub fn for_deserialize() -> (r: Self)
        ensures
            r == (ShapeOptions {
                kind: ShapeOptionsKind::Deserialize,
                option_is_optional: true,
                option_add_undefined: true,
                option_add_null: true,
            }),
    {
        Self {
            kind: ShapeOptionsKind::Deserialize,
            option_is_optional: true,
            option_add_undefined: true,
            option_add_null: true,
        }
    }

    /// Whether these options are for the serialize direction.
    pub fn is_serialize(&self) -> (r: bool)
        ensures
            r == (self.kind == ShapeOptionsKind::Serialize),
    {
        matches!(self.kind, ShapeOptionsKind::Serialize)
    }

    /// Whether these options are for the deserialize direction.
    pub fn is_deserialize(&self) -> (r: bool)
        ensures
            r == (self.kind == ShapeOptionsKind::Deserialize),
    {
        matches!(self.kind, ShapeOptionsKind::Deserialize)
    }
}

/// Formatting options of the renderer.
///
/// `readonly_annotations` controls whether the `readonly` marker of object
/// properties and index signatures is written out; everything else about the
/// output is canonical.
#[derive(Debug, Clone, Copy, PartialEq, Eq, Structural)]
pub struct RenderOptions {
    pub readonly_annotations: bool,
}

impl Default for RenderOptions {
    /// By default the `readonly` markers are written out.
    fn default() -> (r: Self)
        ensures
            r == (RenderOptions { readonly_annotations: true }),
    {
        RenderOptions { readonly_annotations: true }
    }
}

} // verus!
