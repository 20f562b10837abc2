//! Which method argument types the ABI accepts, and how each accepted one
//! travels: the rules of `parse_type` and `parse_box_type`.
use vstd::prelude::*;
use crate::model::{AbiTypeError, ArgClass, BoundDesc, ClosureKind, GenericArgDesc, SegmentArgs, SegmentDesc, TypeDesc};
use crate::text::same_text;

verus! {

/// A type that ends the rules: taken by value where it is not behind a
/// reference, and as a shared reference where it is; a mutable reference to it
/// is refused.
pub open spec fn value_or_reference(id: usize, is_reference: bool, is_mut_ref: bool) -> Result<ArgClass, AbiTypeError> {
    if !is_reference {
        Ok(ArgClass::PlainData { ty: id })
    } else if is_mut_ref {
        Err(AbiTypeError::MutableReference { ty: id })
    } else {
        Ok(ArgClass::Reference { ty: id })
    }
}

/// The trait segments of a referenced trait object's bounds, in order; the
/// first lifetime bound, or trait bound with an empty path, refuses it.
pub open spec fn referenced_trait_segments(bounds: Seq<BoundDesc>) -> Result<Seq<SegmentDesc>, AbiTypeError>
    decreases bounds.len(),
{
    if bounds.len() == 0 {
        Ok(Seq::empty())
    } else {
        match referenced_trait_segments(bounds.drop_last()) {
            Err(e) => Err(e),
            Ok(segs) => match bounds.last() {
                BoundDesc::Lifetime => Err(AbiTypeError::LifetimeNotSupported),
                BoundDesc::Trait(None) => Err(AbiTypeError::MissingBoundPath),
                BoundDesc::Trait(Some(seg)) => Ok(segs.push(seg)),
            },
        }
    }
}

/// The trait segments of a boxed trait object's bounds, in order; lifetime
/// bounds are passed over, and the first trait bound with an empty path
/// refuses it.
pub open spec fn boxed_trait_segments(bounds: Seq<BoundDesc>) -> Result<Seq<SegmentDesc>, AbiTypeError>
    decreases bounds.len(),
{
    if bounds.len() == 0 {
        Ok(Seq::empty())
    } else {
        match boxed_trait_segments(bounds.drop_last()) {
            Err(e) => Err(e),
            Ok(segs) => match bounds.last() {
                BoundDesc::Lifetime => Ok(segs),
                BoundDesc::Trait(None) => Err(AbiTypeError::MissingBoundPath),
                BoundDesc::Trait(Some(seg)) => Ok(segs.push(seg)),
            },
        }
    }
}

/// Whether a segment names one of the closure traits `Fn`, `FnMut`, `FnOnce`.
pub open spec fn names_closure_trait(seg: SegmentDesc) -> bool {
    seg.ident@ == "Fn"@ || seg.ident@ == "FnMut"@ || seg.ident@ == "FnOnce"@
}

/// What a reference to a `dyn` trait object (whose own id is `id`) is taken as.
pub open spec fn referenced_trait(id: usize, bounds: Seq<BoundDesc>, is_mut_ref: bool) -> Result<ArgClass, AbiTypeError> {
    match referenced_trait_segments(bounds) {
        Err(e) => Err(e),
        Ok(segs) => if segs.len() == 0 {
            Err(AbiTypeError::TraitObjectNoTraits)
        } else if segs.len() > 1 {
            Err(AbiTypeError::TraitObjectMultipleTraits { ty: id })
        } else if !names_closure_trait(segs[0]) {
            Ok(ArgClass::TraitReference { trait_seg: segs[0].id, is_mut: is_mut_ref })
        } else if segs[0].ident@ == "FnOnce"@ {
            Err(AbiTypeError::FnOnceNotSupported)
        } else if segs[0].ident@ == "FnMut"@ && !is_mut_ref {
            Err(AbiTypeError::FnMutBehindSharedReference)
        } else if segs[0].args is Parenthesized {
            Ok(ArgClass::Fn {
                kind: if segs[0].ident@ == "FnMut"@ { ClosureKind::FnMut } else { ClosureKind::Fn },
                decl: segs[0].id,
                is_mut: is_mut_ref,
            })
        } else {
            Err(AbiTypeError::FnArgsNotParenthesized)
        },
    }
}

/// What a method argument of type `t` is taken as, or why it is refused.
/// `is_reference` and `is_mut_ref` say whether `t` stands behind a reference
/// (`&`), and whether that reference is mutable (`&mut`).
pub open spec fn arg_type_of(t: TypeDesc, is_reference: bool, is_mut_ref: bool) -> Result<ArgClass, AbiTypeError>
    decreases t, 1nat,
{
    match t {
        TypeDesc::Tuple { id, len } => if len > 3 {
            Err(AbiTypeError::TupleTooLong)
        } else {
            value_or_reference(id, is_reference, is_mut_ref)
        },
        TypeDesc::Reference { id, has_lifetime, is_mut, elem } => if has_lifetime {
            Err(AbiTypeError::LifetimeNotSupported)
        } else if is_reference {
            Err(AbiTypeError::ReferenceToReference { ty: id })
        } else {
            arg_type_of(*elem, true, is_mut)
        },
        TypeDesc::Slice { id, elem_id } => if !is_reference {
            Err(AbiTypeError::SliceNotBehindReference { ty: id })
        } else if is_mut_ref {
            Err(AbiTypeError::MutableSliceReference { ty: id })
        } else {
            Ok(ArgClass::SliceReference { elem: elem_id })
        },
        TypeDesc::TraitObject { id, has_dyn, bounds } => if !is_reference {
            Err(AbiTypeError::TraitObjectNotBehindReference { ty: id })
        } else if !has_dyn {
            Err(AbiTypeError::TraitObjectWithoutDyn)
        } else {
            referenced_trait(id, bounds@, is_mut_ref)
        },
        TypeDesc::Path { id, segment_count, last } => match last {
            None => Err(AbiTypeError::MissingPathSegments),
            Some(seg) => if seg.ident@ == "str"@ {
                if segment_count != 1 {
                    Err(AbiTypeError::StrNotStandard)
                } else if !is_reference {
                    Err(AbiTypeError::BareStr)
                } else {
                    Ok(ArgClass::Str)
                }
            } else if seg.ident@ == "Box"@ {
                if is_reference {
                    Err(AbiTypeError::ReferenceToBox)
                } else {
                    box_arg_type_of(t, is_reference, is_mut_ref)
                }
            } else {
                value_or_reference(id, is_reference, is_mut_ref)
            },
        },
        TypeDesc::Other { id } => Err(AbiTypeError::UnsupportedType { ty: id }),
    }
}

/// Whether `t` is a path type with a last segment: what the `Box` rules read.
pub open spec fn is_box_path(t: TypeDesc) -> bool {
    t matches TypeDesc::Path { last: Some(_), .. }
}

/// What an argument of the path type `t`, a `Box<..>`, is taken as.
pub open spec fn box_arg_type_of(t: TypeDesc, is_reference: bool, is_mut_ref: bool) -> Result<ArgClass, AbiTypeError>
    decreases t, 0nat,
{
    match t {
        TypeDesc::Path { id, segment_count, last: Some(seg) } => if segment_count != 1 {
            Err(AbiTypeError::BoxNotStandard)
        } else {
            match seg.args {
                SegmentArgs::AngleBracketed(args) => if args@.len() == 0 {
                    Err(AbiTypeError::MissingBoxArgs)
                } else if args@.len() != 1 {
                    Err(AbiTypeError::BoxArgCount { ty: id })
                } else {
                    match args@[0] {
                        GenericArgDesc::Type(inner) => match inner {
                            TypeDesc::TraitObject { id: tid, has_dyn, bounds } => if is_reference {
                                Err(AbiTypeError::ReferenceToBoxedTrait)
                            } else {
                                match boxed_trait_segments(bounds@) {
                                    Err(e) => Err(e),
                                    Ok(segs) => if segs.len() == 0 {
                                        Err(AbiTypeError::BoxedTraitNoTraits)
                                    } else if segs.len() > 1 {
                                        Err(AbiTypeError::BoxedTraitMultipleTraits { ty: tid })
                                    } else if !has_dyn {
                                        Err(AbiTypeError::BoxedTraitWithoutDyn)
                                    } else {
                                        Ok(ArgClass::BoxedTrait { trait_seg: segs[0].id })
                                    },
                                }
                            },
                            _ => match arg_type_of(inner, is_reference, is_mut_ref) {
                                Ok(ArgClass::PlainData { .. }) => Ok(ArgClass::PlainData { ty: id }),
                                Ok(_) => Err(AbiTypeError::UnsupportedBoxType { ty: id }),
                                Err(e) => Err(e),
                            },
                        },
                        GenericArgDesc::Other => Err(AbiTypeError::UnsupportedBoxType { ty: id }),
                    }
                },
                _ => Err(AbiTypeError::UnsupportedBoxType { ty: id }),
            }
        },
        _ => Err(AbiTypeError::UnsupportedBoxType { ty: t.id() }),
    }
}

/// Scans a referenced trait object's bounds: on success, the number of trait
/// bounds and the position among `bounds` of the first of them.
fn scan_referenced_bounds(bounds: &Vec<BoundDesc>) -> (r: Result<(usize, usize), AbiTypeError>)
    ensures
        match referenced_trait_segments(bounds@) {
            Err(e) => r == Err::<(usize, usize), AbiTypeError>(e),
            Ok(segs) => r matches Ok((count, first)) && count == segs.len() && (count > 0 ==> {
                &&& first < bounds@.len()
                &&& bounds@[first as int] == BoundDesc::Trait(Some(segs[0]))
            }),
        },
{
    let mut count: usize = 0;
    let mut first: usize = 0;
    let mut i: usize = 0;
    while i < bounds.len()
        invariant
            i <= bounds@.len(),
            referenced_trait_segments(bounds@.take(i as int)) matches Ok(segs) && count == segs.len() && (count > 0 ==> {
                &&& first < bounds@.len()
                &&& bounds@[first as int] == BoundDesc::Trait(Some(segs[0]))
            }),
            count <= i,
        decreases bounds@.len() - i,
    {
        proof {
            assert(bounds@.take(i + 1).drop_last() =~= bounds@.take(i as int));
        }
        match &bounds[i] {
            BoundDesc::Lifetime => {
                proof { lemma_referenced_error_persists(bounds@, i as int + 1); }
                return Err(AbiTypeError::LifetimeNotSupported);
            },
            BoundDesc::Trait(None) => {
                proof { lemma_referenced_error_persists(bounds@, i as int + 1); }
                return Err(AbiTypeError::MissingBoundPath);
            },
            BoundDesc::Trait(Some(_)) => {
                if count == 0 {
                    first = i;
                }
                count = count + 1;
            },
        }
        i = i + 1;
    }
    proof {
        assert(bounds@.take(i as int) =~= bounds@);
    }
    Ok((count, first))
}

/// Once a prefix of the bounds is refused, so are the bounds.
proof fn lemma_referenced_error_persists(bounds: Seq<BoundDesc>, n: int)
    requires
        0 <= n <= bounds.len(),
        referenced_trait_segments(bounds.take(n)) is Err,
    ensures
        referenced_trait_segments(bounds) == referenced_trait_segments(bounds.take(n)),
    decreases bounds.len() - n,
{
    if n < bounds.len() {
        assert(bounds.take(n + 1).drop_last() =~= bounds.take(n));
        lemma_referenced_error_persists(bounds, n + 1);
    } else {
        assert(bounds.take(n) =~= bounds);
    }
}

/// Once a prefix of the bounds is refused, so are the bounds.
proof fn lemma_boxed_error_persists(bounds: Seq<BoundDesc>, n: int)
    requires
        0 <= n <= bounds.len(),
        boxed_trait_segments(bounds.take(n)) is Err,
    ensures
        boxed_trait_segments(bounds) == boxed_trait_segments(bounds.take(n)),
    decreases bounds.len() - n,
{
    if n < bounds.len() {
        assert(bounds.take(n + 1).drop_last() =~= bounds.take(n));
        lemma_boxed_error_persists(bounds, n + 1);
    } else {
        assert(bounds.take(n) =~= bounds);
    }
}

/// Scans a boxed trait object's bounds: on success, the number of trait
/// bounds and the position among `bounds` of the first of them.
fn scan_boxed_bounds(bounds: &Vec<BoundDesc>) -> (r: Result<(usize, usize), AbiTypeError>)
    ensures
        match boxed_trait_segments(bounds@) {
            Err(e) => r == Err::<(usize, usize), AbiTypeError>(e),
            Ok(segs) => r matches Ok((count, first)) && count == segs.len() && (count > 0 ==> {
                &&& first < bounds@.len()
                &&& bounds@[first as int] == BoundDesc::Trait(Some(segs[0]))
            }),
        },
{
    let mut count: usize = 0;
    let mut first: usize = 0;
    let mut i: usize = 0;
    while i < bounds.len()
        invariant
            i <= bounds@.len(),
            boxed_trait_segments(bounds@.take(i as int)) matches Ok(segs) && count == segs.len() && (count > 0 ==> {
                &&& first < bounds@.len()
                &&& bounds@[first as int] == BoundDesc::Trait(Some(segs[0]))
            }),
            count <= i,
        decreases bounds@.len() - i,
    {
        proof {
            assert(bounds@.take(i + 1).drop_last() =~= bounds@.take(i as int));
        }
        match &bounds[i] {
            BoundDesc::Lifetime => {},
            BoundDesc::Trait(None) => {
                proof { lemma_boxed_error_persists(bounds@, i as int + 1); }
                return Err(AbiTypeError::MissingBoundPath);
            },
            BoundDesc::Trait(Some(_)) => {
                if count == 0 {
                    first = i;
                }
                count = count + 1;
            },
        }
        i = i + 1;
    }
    proof {
        assert(bounds@.take(i as int) =~= bounds@);
    }
    Ok((count, first))
}

fn value_or_reference_exec(id: usize, is_reference: bool, is_mut_ref: bool) -> (r: Result<ArgClass, AbiTypeError>)
    ensures
        r == value_or_reference(id, is_reference, is_mut_ref),
{
    if !is_reference {
        Ok(ArgClass::PlainData { ty: id })
    } else if is_mut_ref {
        Err(AbiTypeError::MutableReference { ty: id })
    } else {
        Ok(ArgClass::Reference { ty: id })
    }
}

/// What a reference to the `dyn` trait object `id`, with these bounds, is taken as.
fn parse_referenced_trait(id: usize, bounds: &Vec<BoundDesc>, is_mut_ref: bool) -> (r: Result<ArgClass, AbiTypeError>)
    ensures
        r == referenced_trait(id, bounds@, is_mut_ref),
{
    let (count, first) = match scan_referenced_bounds(bounds) {
        Err(e) => return Err(e),
        Ok(found) => found,
    };
    if count == 0 {
        return Err(AbiTypeError::TraitObjectNoTraits);
    }
    if count > 1 {
        return Err(AbiTypeError::TraitObjectMultipleTraits { ty: id });
    }
    match &bounds[first] {
        BoundDesc::Trait(Some(seg)) => {
            let is_fn = same_text(seg.ident.as_str(), "Fn");
            let is_fn_mut = same_text(seg.ident.as_str(), "FnMut");
            let is_fn_once = same_text(seg.ident.as_str(), "FnOnce");
            if !(is_fn || is_fn_mut || is_fn_once) {
                Ok(ArgClass::TraitReference { trait_seg: seg.id, is_mut: is_mut_ref })
            } else if is_fn_once {
                Err(AbiTypeError::FnOnceNotSupported)
            } else if is_fn_mut && !is_mut_ref {
                Err(AbiTypeError::FnMutBehindSharedReference)
            } else {
                match &seg.args {
                    SegmentArgs::Parenthesized { .. } => Ok(ArgClass::Fn {
                        kind: if is_fn_mut { ClosureKind::FnMut } else { ClosureKind::Fn },
                        decl: seg.id,
                        is_mut: is_mut_ref,
                    }),
                    _ => Err(AbiTypeError::FnArgsNotParenthesized),
                }
            }
        },
        _ => {
            proof {
                assert(false);
            }
            Err(AbiTypeError::MissingBoundPath)
        },
    }
}

/// What a `Box<dyn ..>` argument, with these trait-object bounds, is taken as.
fn parse_boxed_trait(id: usize, has_dyn: bool, bounds: &Vec<BoundDesc>) -> (r: Result<ArgClass, AbiTypeError>)
    ensures
        r == (match boxed_trait_segments(bounds@) {
            Err(e) => Err(e),
            Ok(segs) => if segs.len() == 0 {
                Err(AbiTypeError::BoxedTraitNoTraits)
            } else if segs.len() > 1 {
                Err(AbiTypeError::BoxedTraitMultipleTraits { ty: id })
            } else if !has_dyn {
                Err(AbiTypeError::BoxedTraitWithoutDyn)
            } else {
                Ok(ArgClass::BoxedTrait { trait_seg: segs[0].id })
            },
        }),
{
    let (count, first) = match scan_boxed_bounds(bounds) {
        Err(e) => return Err(e),
        Ok(found) => found,
    };
    if count == 0 {
        return Err(AbiTypeError::BoxedTraitNoTraits);
    }
    if count > 1 {
        return Err(AbiTypeError::BoxedTraitMultipleTraits { ty: id });
    }
    if !has_dyn {
        return Err(AbiTypeError::BoxedTraitWithoutDyn);
    }
    match &bounds[first] {
        BoundDesc::Trait(Some(seg)) => Ok(ArgClass::BoxedTrait { trait_seg: seg.id }),
        _ => {
            proof {
                assert(false);
            }
            Err(AbiTypeError::MissingBoundPath)
        },
    }
}

/// Decides how a method argument of type `t` travels across the ABI, or why
/// it is refused. `is_reference` and `is_mut_ref` say whether `t` stands
/// behind a reference, and whether that reference is mutable; for the
/// argument's own declared type both are false.
pub fn parse_type(t: &TypeDesc, is_reference: bool, is_mut_ref: bool) -> (r: Result<ArgClass, AbiTypeError>)
    ensures
        r == arg_type_of(*t, is_reference, is_mut_ref),
    decreases *t, 1nat,
{
    match t {
        TypeDesc::Tuple { id, len } => {
            if *len > 3 {
                Err(AbiTypeError::TupleTooLong)
            } else {
                value_or_reference_exec(*id, is_reference, is_mut_ref)
            }
        },
        TypeDesc::Reference { id, has_lifetime, is_mut, elem } => {
            if *has_lifetime {
                Err(AbiTypeError::LifetimeNotSupported)
            } else if is_reference {
                Err(AbiTypeError::ReferenceToReference { ty: *id })
            } else {
                parse_type(elem, true, *is_mut)
            }
        },
        TypeDesc::Slice { id, elem_id } => {
            if !is_reference {
                Err(AbiTypeError::SliceNotBehindReference { ty: *id })
            } else if is_mut_ref {
                Err(AbiTypeError::MutableSliceReference { ty: *id })
            } else {
                Ok(ArgClass::SliceReference { elem: *elem_id })
            }
        },
        TypeDesc::TraitObject { id, has_dyn, bounds } => {
            if !is_reference {
                Err(AbiTypeError::TraitObjectNotBehindReference { ty: *id })
            } else if !*has_dyn {
                Err(AbiTypeError::TraitObjectWithoutDyn)
            } else {
                parse_referenced_trait(*id, bounds, is_mut_ref)
            }
        },
        TypeDesc::Path { id, segment_count, last } => {
            match last {
                None => Err(AbiTypeError::MissingPathSegments),
                Some(seg) => {
                    if same_text(seg.ident.as_str(), "str") {
                        if *segment_count != 1 {
                            Err(AbiTypeError::StrNotStandard)
                        } else if !is_reference {
                            Err(AbiTypeError::BareStr)
                        } else {
                            Ok(ArgClass::Str)
                        }
                    } else if same_text(seg.ident.as_str(), "Box") {
                        if is_reference {
                            Err(AbiTypeError::ReferenceToBox)
                        } else {
                            parse_box_type(t, is_reference, is_mut_ref)
                        }
                    } else {
                        value_or_reference_exec(*id, is_reference, is_mut_ref)
                    }
                },
            }
        },
        TypeDesc::Other { id } => Err(AbiTypeError::UnsupportedType { ty: *id }),
    }
}

/// Decides how an argument of the path type `t`, named `Box`, travels across
/// the ABI: as an owned trait object for `Box<dyn Trait>`, as plain data where
/// the boxed type is plain data, and refused otherwise.
pub fn parse_box_type(t: &TypeDesc, is_reference: bool, is_mut_ref: bool) -> (r: Result<ArgClass, AbiTypeError>)
    requires
        is_box_path(*t),
    ensures
        r == box_arg_type_of(*t, is_reference, is_mut_ref),
    decreases *t, 0nat,
{
    match t {
        TypeDesc::Path { id, segment_count, last: Some(seg) } => {
            if *segment_count != 1 {
                return Err(AbiTypeError::BoxNotStandard);
            }
            match &seg.args {
                SegmentArgs::AngleBracketed(args) => {
                    if args.len() == 0 {
                        Err(AbiTypeError::MissingBoxArgs)
                    } else if args.len() != 1 {
                        Err(AbiTypeError::BoxArgCount { ty: *id })
                    } else {
                        match &args[0] {
                            GenericArgDesc::Type(inner) => match inner {
                                TypeDesc::TraitObject { id: tid, has_dyn, bounds } => {
                                    if is_reference {
                                        Err(AbiTypeError::ReferenceToBoxedTrait)
                                    } else {
                                        parse_boxed_trait(*tid, *has_dyn, bounds)
                                    }
                                },
                                _ => match parse_type(inner, is_reference, is_mut_ref) {
                                    Ok(ArgClass::PlainData { .. }) => Ok(ArgClass::PlainData { ty: *id }),
                                    Ok(_) => Err(AbiTypeError::UnsupportedBoxType { ty: *id }),
                                    Err(e) => Err(e),
                                },
                            },
                            GenericArgDesc::Other => Err(AbiTypeError::UnsupportedBoxType { ty: *id }),
                        }
                    }
                },
                _ => Err(AbiTypeError::UnsupportedBoxType { ty: *id }),
            }
        },
        _ => {
            proof {
                assert(false);
            }
            Err(AbiTypeError::UnsupportedBoxType { ty: t.node_id() })
        },
    }
}

} // verus!
