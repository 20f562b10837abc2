//! The library's own description of a Rust type, holding as plain values what
//! the ABI's argument rules read of it, and what those rules make of it.
//!
//! Every node carries an `id`: a number the caller gives it, by which a result
//! or an error points back at the node it speaks of.
use vstd::prelude::*;

verus! {

/// A generic argument between angle brackets, such as the `T` of `Box<T>`.
pub enum GenericArgDesc {
    /// A type argument.
    Type(TypeDesc),
    /// A lifetime, a constant, an associated-type binding or a constraint.
    Other,
}

/// The arguments written after a path segment.
pub enum SegmentArgs {
    /// No arguments, as in `u32`.
    Plain,
    /// Angle-bracketed arguments, as in `Box<T>`.
    AngleBracketed(Vec<GenericArgDesc>),
    /// Parenthesized arguments, as in `Fn(u32, u8) -> u16`: the ids of the
    /// input types and of the output type, if one is written.
    Parenthesized { inputs: Vec<usize>, output: Option<usize> },
}

/// One segment of a path, such as `Box<T>` or `FnMut(u32)`.
pub struct SegmentDesc {
    pub id: usize,
    pub ident: String,
    pub args: SegmentArgs,
}

/// One bound of a trait object.
pub enum BoundDesc {
    /// A trait bound, with the last segment of its path (none where the path is empty).
    Trait(Option<SegmentDesc>),
    /// A lifetime bound, such as `'a`.
    Lifetime,
}

/// A Rust type, as far as the argument rules read it.
pub enum TypeDesc {
    /// A tuple type with `len` members; `()` has none.
    Tuple { id: usize, len: usize },
    /// A reference `&T`, `&mut T` or `&'a T`.
    Reference { id: usize, has_lifetime: bool, is_mut: bool, elem: Box<TypeDesc> },
    /// A slice type `[T]`; `elem_id` is the id of `T`.
    Slice { id: usize, elem_id: usize },
    /// A trait object, written with or without `dyn`.
    TraitObject { id: usize, has_dyn: bool, bounds: Vec<BoundDesc> },
    /// A path type, with its number of segments and its last segment.
    Path { id: usize, segment_count: usize, last: Option<SegmentDesc> },
    /// Any other type (array, pointer, function pointer, `impl Trait`, ...).
    Other { id: usize },
}

impl TypeDesc {
    /// The id of this node.
    pub open spec fn id(self) -> usize {
        match self {
            TypeDesc::Tuple { id, .. } => id,
            TypeDesc::Reference { id, .. } => id,
            TypeDesc::Slice { id, .. } => id,
            TypeDesc::TraitObject { id, .. } => id,
            TypeDesc::Path { id, .. } => id,
            TypeDesc::Other { id } => id,
        }
    }

    /// The id of this node.
    pub fn node_id(&self) -> (r: usize)
        ensures
            r == self.id(),
    {
        match self {
            TypeDesc::Tuple { id, .. } => *id,
            TypeDesc::Reference { id, .. } => *id,
            TypeDesc::Slice { id, .. } => *id,
            TypeDesc::TraitObject { id, .. } => *id,
            TypeDesc::Path { id, .. } => *id,
            TypeDesc::Other { id } => *id,
        }
    }
}

/// The two closure traits that an argument may be a reference to.
#[derive(Clone, Copy, Debug, PartialEq, Eq, Structural)]
pub enum ClosureKind {
    /// `&dyn Fn(..)` or `&mut dyn Fn(..)`.
    Fn,
    /// `&mut dyn FnMut(..)`.
    FnMut,
}

/// How an accepted method argument travels across the ABI.
#[derive(Clone, Copy, Debug, PartialEq, Eq, Structural)]
pub enum ArgClass {
    /// Passed by value and serialized; `ty` is the id of the argument's type.
    PlainData { ty: usize },
    /// A shared reference to a value; `ty` is the id of the referenced type.
    Reference { ty: usize },
    /// A shared slice `&[T]`; `elem` is the id of `T`.
    SliceReference { elem: usize },
    /// A string slice `&str`.
    Str,
    /// A reference to a trait object `&dyn Trait` or `&mut dyn Trait`;
    /// `trait_seg` is the id of the segment that names the trait.
    TraitReference { trait_seg: usize, is_mut: bool },
    /// An owned trait object `Box<dyn Trait>`; `trait_seg` names the trait.
    BoxedTrait { trait_seg: usize },
    /// A reference to a closure; `decl` is the id of the `Fn(..)` or
    /// `FnMut(..)` segment that declares its signature.
    Fn { kind: ClosureKind, decl: usize, is_mut: bool },
}

/// Why an argument type is refused. Where the message names a type, the
/// variant holds the id of that type.
#[derive(Clone, Copy, Debug, PartialEq, Eq, Structural)]
pub enum AbiTypeError {
    /// A `Box` written with a path of more than one segment.
    BoxNotStandard,
    /// `Box` with no generic argument.
    MissingBoxArgs,
    /// `Box` with more than one generic argument.
    BoxArgCount { ty: usize },
    /// A reference to a boxed trait object.
    ReferenceToBoxedTrait,
    /// A trait bound whose path has no segment.
    MissingBoundPath,
    /// `Box<dyn ..>` naming no trait.
    BoxedTraitNoTraits,
    /// `Box<dyn ..>` naming more than one trait; `ty` is the trait object.
    BoxedTraitMultipleTraits { ty: usize },
    /// `Box<Trait>` without `dyn`.
    BoxedTraitWithoutDyn,
    /// Any other `Box` content that cannot be sent.
    UnsupportedBoxType { ty: usize },
    /// A lifetime written on a reference or as a trait-object bound.
    LifetimeNotSupported,
    /// A reference to a reference; `ty` is the inner reference.
    ReferenceToReference { ty: usize },
    /// A tuple of more than three members.
    TupleTooLong,
    /// A slice that is not behind a reference.
    SliceNotBehindReference { ty: usize },
    /// A slice behind a mutable reference.
    MutableSliceReference { ty: usize },
    /// A trait object that is not behind a reference.
    TraitObjectNotBehindReference { ty: usize },
    /// A referenced trait object naming no trait.
    TraitObjectNoTraits,
    /// A referenced trait object naming more than one trait; `ty` is the trait object.
    TraitObjectMultipleTraits { ty: usize },
    /// A reference to `dyn FnOnce(..)`.
    FnOnceNotSupported,
    /// `&dyn FnMut(..)` without `mut`.
    FnMutBehindSharedReference,
    /// `Fn` or `FnMut` without parenthesized arguments.
    FnArgsNotParenthesized,
    /// A referenced trait object without `dyn`.
    TraitObjectWithoutDyn,
    /// A path type with no segment.
    MissingPathSegments,
    /// A `str` written with a path of more than one segment.
    StrNotStandard,
    /// `str` that is not behind a reference.
    BareStr,
    /// A reference to a `Box`.
    ReferenceToBox,
    /// A type of a kind the ABI does not carry.
    UnsupportedType { ty: usize },
    /// A mutable reference to anything but a closure or a trait object.
    MutableReference { ty: usize },
}

} // verus!
