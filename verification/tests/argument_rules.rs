use savefile_derive::classify::{parse_box_type, parse_type};
use savefile_derive::model::{
    AbiTypeError, ArgClass, BoundDesc, ClosureKind, GenericArgDesc, SegmentArgs, SegmentDesc, TypeDesc,
};

fn seg(id: usize, ident: &str, args: SegmentArgs) -> SegmentDesc {
    SegmentDesc { id, ident: ident.to_string(), args }
}

fn path(id: usize, count: usize, last: SegmentDesc) -> TypeDesc {
    TypeDesc::Path { id, segment_count: count, last: Some(last) }
}

fn named(id: usize, ident: &str) -> TypeDesc {
    path(id, 1, seg(id + 100, ident, SegmentArgs::Plain))
}

fn reference(id: usize, is_mut: bool, elem: TypeDesc) -> TypeDesc {
    TypeDesc::Reference { id, has_lifetime: false, is_mut, elem: Box::new(elem) }
}

fn boxed(id: usize, args: Vec<GenericArgDesc>) -> TypeDesc {
    path(id, 1, seg(id + 100, "Box", SegmentArgs::AngleBracketed(args)))
}

fn trait_bound(id: usize, ident: &str) -> BoundDesc {
    BoundDesc::Trait(Some(seg(id, ident, SegmentArgs::Plain)))
}

fn closure_bound(id: usize, ident: &str) -> BoundDesc {
    BoundDesc::Trait(Some(seg(id, ident, SegmentArgs::Parenthesized { inputs: vec![70, 71], output: Some(72) })))
}

fn dyn_object(id: usize, bounds: Vec<BoundDesc>) -> TypeDesc {
    TypeDesc::TraitObject { id, has_dyn: true, bounds }
}

fn top(t: &TypeDesc) -> Result<ArgClass, AbiTypeError> {
    parse_type(t, false, false)
}

#[test]
fn plain_value_is_plain_data() {
    assert_eq!(top(&named(1, "u32")), Ok(ArgClass::PlainData { ty: 1 }));
}

#[test]
fn unit_and_short_tuples_are_plain_data() {
    assert_eq!(top(&TypeDesc::Tuple { id: 2, len: 0 }), Ok(ArgClass::PlainData { ty: 2 }));
    assert_eq!(top(&TypeDesc::Tuple { id: 3, len: 3 }), Ok(ArgClass::PlainData { ty: 3 }));
}

#[test]
fn tuple_of_four_is_refused() {
    assert_eq!(top(&TypeDesc::Tuple { id: 2, len: 4 }), Err(AbiTypeError::TupleTooLong));
}

#[test]
fn shared_reference_is_reference_to_inner_type() {
    assert_eq!(top(&reference(1, false, named(2, "u32"))), Ok(ArgClass::Reference { ty: 2 }));
}

#[test]
fn mutable_reference_to_value_is_refused() {
    assert_eq!(top(&reference(1, true, named(2, "u32"))), Err(AbiTypeError::MutableReference { ty: 2 }));
}

#[test]
fn reference_with_lifetime_is_refused() {
    let t = TypeDesc::Reference { id: 1, has_lifetime: true, is_mut: false, elem: Box::new(named(2, "u32")) };
    assert_eq!(top(&t), Err(AbiTypeError::LifetimeNotSupported));
}

#[test]
fn reference_to_reference_is_refused() {
    let t = reference(1, false, reference(2, false, named(3, "u32")));
    assert_eq!(top(&t), Err(AbiTypeError::ReferenceToReference { ty: 2 }));
}

#[test]
fn slices_need_shared_reference() {
    let slice = TypeDesc::Slice { id: 2, elem_id: 3 };
    assert_eq!(top(&reference(1, false, TypeDesc::Slice { id: 2, elem_id: 3 })), Ok(ArgClass::SliceReference { elem: 3 }));
    assert_eq!(top(&reference(1, true, TypeDesc::Slice { id: 2, elem_id: 3 })), Err(AbiTypeError::MutableSliceReference { ty: 2 }));
    assert_eq!(top(&slice), Err(AbiTypeError::SliceNotBehindReference { ty: 2 }));
}

#[test]
fn str_rules() {
    assert_eq!(top(&reference(1, false, named(2, "str"))), Ok(ArgClass::Str));
    assert_eq!(top(&reference(1, true, named(2, "str"))), Ok(ArgClass::Str));
    assert_eq!(top(&named(2, "str")), Err(AbiTypeError::BareStr));
    assert_eq!(top(&reference(1, false, path(2, 2, seg(3, "str", SegmentArgs::Plain)))), Err(AbiTypeError::StrNotStandard));
}

#[test]
fn trait_object_references() {
    assert_eq!(
        top(&reference(1, false, dyn_object(2, vec![trait_bound(3, "Listener")]))),
        Ok(ArgClass::TraitReference { trait_seg: 3, is_mut: false })
    );
    assert_eq!(
        top(&reference(1, true, dyn_object(2, vec![trait_bound(3, "Listener")]))),
        Ok(ArgClass::TraitReference { trait_seg: 3, is_mut: true })
    );
}

#[test]
fn trait_object_refusals() {
    let no_dyn = TypeDesc::TraitObject { id: 2, has_dyn: false, bounds: vec![trait_bound(3, "Listener")] };
    assert_eq!(top(&reference(1, false, no_dyn)), Err(AbiTypeError::TraitObjectWithoutDyn));
    assert_eq!(top(&dyn_object(2, vec![trait_bound(3, "Listener")])), Err(AbiTypeError::TraitObjectNotBehindReference { ty: 2 }));
    assert_eq!(
        top(&reference(1, false, dyn_object(2, vec![trait_bound(3, "A"), trait_bound(4, "B")]))),
        Err(AbiTypeError::TraitObjectMultipleTraits { ty: 2 })
    );
    assert_eq!(
        top(&reference(1, false, dyn_object(2, vec![trait_bound(3, "A"), BoundDesc::Lifetime]))),
        Err(AbiTypeError::LifetimeNotSupported)
    );
    assert_eq!(top(&reference(1, false, dyn_object(2, vec![]))), Err(AbiTypeError::TraitObjectNoTraits));
    assert_eq!(
        top(&reference(1, false, dyn_object(2, vec![BoundDesc::Trait(None)]))),
        Err(AbiTypeError::MissingBoundPath)
    );
}

#[test]
fn closure_references() {
    assert_eq!(
        top(&reference(1, false, dyn_object(2, vec![closure_bound(3, "Fn")]))),
        Ok(ArgClass::Fn { kind: ClosureKind::Fn, decl: 3, is_mut: false })
    );
    assert_eq!(
        top(&reference(1, true, dyn_object(2, vec![closure_bound(3, "FnMut")]))),
        Ok(ArgClass::Fn { kind: ClosureKind::FnMut, decl: 3, is_mut: true })
    );
    assert_eq!(
        top(&reference(1, true, dyn_object(2, vec![closure_bound(3, "Fn")]))),
        Ok(ArgClass::Fn { kind: ClosureKind::Fn, decl: 3, is_mut: true })
    );
}

#[test]
fn closure_refusals() {
    assert_eq!(
        top(&reference(1, false, dyn_object(2, vec![closure_bound(3, "FnMut")]))),
        Err(AbiTypeError::FnMutBehindSharedReference)
    );
    assert_eq!(
        top(&reference(1, true, dyn_object(2, vec![closure_bound(3, "FnOnce")]))),
        Err(AbiTypeError::FnOnceNotSupported)
    );
    assert_eq!(
        top(&reference(1, false, dyn_object(2, vec![trait_bound(3, "Fn")]))),
        Err(AbiTypeError::FnArgsNotParenthesized)
    );
}

#[test]
fn boxed_plain_data_is_the_whole_box() {
    let t = boxed(1, vec![GenericArgDesc::Type(named(2, "u32"))]);
    assert_eq!(top(&t), Ok(ArgClass::PlainData { ty: 1 }));
    let nested = boxed(5, vec![GenericArgDesc::Type(t)]);
    assert_eq!(top(&nested), Ok(ArgClass::PlainData { ty: 5 }));
}

#[test]
fn boxed_trait_object() {
    let t = boxed(1, vec![GenericArgDesc::Type(dyn_object(2, vec![BoundDesc::Lifetime, trait_bound(3, "Listener")]))]);
    assert_eq!(top(&t), Ok(ArgClass::BoxedTrait { trait_seg: 3 }));
}

#[test]
fn boxed_trait_refusals() {
    let no_dyn = TypeDesc::TraitObject { id: 2, has_dyn: false, bounds: vec![trait_bound(3, "Listener")] };
    assert_eq!(top(&boxed(1, vec![GenericArgDesc::Type(no_dyn)])), Err(AbiTypeError::BoxedTraitWithoutDyn));
    let two = dyn_object(2, vec![trait_bound(3, "A"), trait_bound(4, "Send")]);
    assert_eq!(top(&boxed(1, vec![GenericArgDesc::Type(two)])), Err(AbiTypeError::BoxedTraitMultipleTraits { ty: 2 }));
    let none = dyn_object(2, vec![BoundDesc::Lifetime]);
    assert_eq!(top(&boxed(1, vec![GenericArgDesc::Type(none)])), Err(AbiTypeError::BoxedTraitNoTraits));
    let listener = dyn_object(2, vec![trait_bound(3, "Listener")]);
    assert_eq!(
        parse_box_type(&boxed(1, vec![GenericArgDesc::Type(listener)]), true, false),
        Err(AbiTypeError::ReferenceToBoxedTrait)
    );
}

#[test]
fn box_refusals() {
    assert_eq!(top(&boxed(1, vec![])), Err(AbiTypeError::MissingBoxArgs));
    assert_eq!(
        top(&boxed(1, vec![GenericArgDesc::Type(named(2, "u32")), GenericArgDesc::Type(named(3, "A"))])),
        Err(AbiTypeError::BoxArgCount { ty: 1 })
    );
    assert_eq!(top(&boxed(1, vec![GenericArgDesc::Other])), Err(AbiTypeError::UnsupportedBoxType { ty: 1 }));
    assert_eq!(top(&named(1, "Box")), Err(AbiTypeError::UnsupportedBoxType { ty: 1 }));
    assert_eq!(
        top(&boxed(1, vec![GenericArgDesc::Type(reference(2, false, named(3, "u32")))])),
        Err(AbiTypeError::UnsupportedBoxType { ty: 1 })
    );
    assert_eq!(top(&boxed(1, vec![GenericArgDesc::Type(named(2, "str"))])), Err(AbiTypeError::BareStr));
    let long = path(1, 3, seg(4, "Box", SegmentArgs::AngleBracketed(vec![GenericArgDesc::Type(named(2, "u32"))])));
    assert_eq!(top(&long), Err(AbiTypeError::BoxNotStandard));
    let inner = boxed(2, vec![GenericArgDesc::Type(named(3, "u32"))]);
    assert_eq!(top(&reference(1, false, inner)), Err(AbiTypeError::ReferenceToBox));
    let boxed_boxed_trait = boxed(
        1,
        vec![GenericArgDesc::Type(boxed(2, vec![GenericArgDesc::Type(dyn_object(3, vec![trait_bound(4, "L")]))]))],
    );
    assert_eq!(top(&boxed_boxed_trait), Err(AbiTypeError::UnsupportedBoxType { ty: 1 }));
}

#[test]
fn other_types_are_refused() {
    assert_eq!(top(&TypeDesc::Other { id: 9 }), Err(AbiTypeError::UnsupportedType { ty: 9 }));
    assert_eq!(
        top(&TypeDesc::Path { id: 9, segment_count: 0, last: None }),
        Err(AbiTypeError::MissingPathSegments)
    );
}

#[test]
fn mutability_flag_is_irrelevant_outside_reference() {
    let t = boxed(1, vec![GenericArgDesc::Type(named(2, "u32"))]);
    assert_eq!(parse_type(&t, false, true), parse_type(&t, false, false));
    assert_eq!(parse_type(&named(2, "u32"), false, true), Ok(ArgClass::PlainData { ty: 2 }));
}

#[test]
fn node_ids() {
    assert_eq!(named(4, "u8").node_id(), 4);
    assert_eq!(TypeDesc::Other { id: 6 }.node_id(), 6);
}
