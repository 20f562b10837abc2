//! Properties that hold of the argument rules and the method plans over all
//! inputs.
use vstd::prelude::*;
use crate::classify::{arg_type_of, boxed_trait_segments, referenced_trait_segments};
use crate::closure::closure_param_name;
use crate::method::{arg_buffer_of, args_size_fits, can_be_sent_as_ref, known_arg_size, known_args_size, passed_by_reference, ret_buffer_of, temps_of, transfer_of, BufferPlan, MethodArg, TempDecls, Transfer};
use crate::text::{decimal, digit_char};
use crate::model::{AbiTypeError, ArgClass, BoundDesc, ClosureKind, GenericArgDesc, SegmentArgs, SegmentDesc, TypeDesc};

verus! {

/// Behind a reference, no type is taken as plain data.
pub proof fn lemma_nothing_plain_behind_reference(t: TypeDesc, is_mut_ref: bool)
    ensures
        !(arg_type_of(t, true, is_mut_ref) matches Ok(ArgClass::PlainData { .. })),
{
}

/// An argument taken as plain data is sent as its own declared type.
pub proof fn lemma_plain_data_is_the_declared_type(t: TypeDesc, is_mut_ref: bool)
    ensures
        arg_type_of(t, false, is_mut_ref) matches Ok(ArgClass::PlainData { ty }) ==> ty == t.id(),
{
    reveal_with_fuel(arg_type_of, 2);
    if let TypeDesc::Reference { elem, is_mut, .. } = t {
        lemma_nothing_plain_behind_reference(*elem, is_mut);
    }
}

/// Behind `&mut`, only a trait object, a closure or `str` is accepted, and a
/// trait object or closure is then taken as mutable.
pub proof fn lemma_mutable_reference_targets(t: TypeDesc)
    ensures
        arg_type_of(t, true, true) matches Ok(c) ==> {
            ||| c matches ArgClass::TraitReference { is_mut: true, .. }
            ||| c matches ArgClass::Fn { is_mut: true, .. }
            ||| c is Str
        },
{
}

/// Behind a shared reference, a trait object or closure is taken as shared,
/// and a closure is an `Fn`.
pub proof fn lemma_shared_reference_targets(t: TypeDesc)
    ensures
        arg_type_of(t, true, false) matches Ok(ArgClass::TraitReference { is_mut, .. }) ==> !is_mut,
        arg_type_of(t, true, false) matches Ok(ArgClass::Fn { kind, is_mut, .. }) ==> !is_mut && kind == ClosureKind::Fn,
{
}

/// An `FnMut` closure is only ever accepted behind `&mut`.
pub proof fn lemma_fn_mut_needs_mutable_reference(t: TypeDesc, is_reference: bool, is_mut_ref: bool)
    ensures
        arg_type_of(t, is_reference, is_mut_ref) matches Ok(ArgClass::Fn { kind: ClosureKind::FnMut, is_mut, .. }) ==> is_mut,
{
    reveal_with_fuel(arg_type_of, 3);
}

/// Outside a reference, whether the (absent) reference is mutable changes nothing.
pub proof fn lemma_mutability_irrelevant_outside_reference(t: TypeDesc)
    ensures
        arg_type_of(t, false, true) == arg_type_of(t, false, false),
    decreases t,
{
    reveal_with_fuel(arg_type_of, 2);
    if let TypeDesc::Path { segment_count, last: Some(seg), .. } = t {
        if segment_count == 1 {
            if let SegmentArgs::AngleBracketed(args) = seg.args {
                if args@.len() == 1 {
                    if let GenericArgDesc::Type(inner) = args@[0] {
                        lemma_mutability_irrelevant_outside_reference(inner);
                    }
                }
            }
        }
    }
}

/// A reference that names a lifetime is refused.
pub proof fn lemma_reference_lifetime_refused(id: usize, is_mut: bool, elem: Box<TypeDesc>, is_reference: bool, is_mut_ref: bool)
    ensures
        arg_type_of(TypeDesc::Reference { id, has_lifetime: true, is_mut, elem }, is_reference, is_mut_ref)
            == Err::<ArgClass, AbiTypeError>(AbiTypeError::LifetimeNotSupported),
{
}

/// Bounds that hold a lifetime are refused behind a reference.
proof fn lemma_lifetime_bound_refused(bounds: Seq<BoundDesc>, i: int)
    requires
        0 <= i < bounds.len(),
        bounds[i] is Lifetime,
    ensures
        referenced_trait_segments(bounds) is Err,
    decreases bounds.len(),
{
    if i < bounds.len() - 1 {
        lemma_lifetime_bound_refused(bounds.drop_last(), i);
    }
}

/// A referenced trait object with a lifetime among its bounds is refused.
pub proof fn lemma_trait_object_lifetime_refused(id: usize, bounds: Vec<BoundDesc>, is_mut_ref: bool, i: int)
    requires
        0 <= i < bounds@.len(),
        bounds@[i] is Lifetime,
    ensures
        arg_type_of(TypeDesc::TraitObject { id, has_dyn: true, bounds }, true, is_mut_ref) is Err,
{
    lemma_lifetime_bound_refused(bounds@, i);
}

/// A tuple is accepted by value exactly when it has at most three members.
pub proof fn lemma_tuple_members(id: usize, len: usize, is_mut_ref: bool)
    ensures
        (arg_type_of(TypeDesc::Tuple { id, len }, false, is_mut_ref) is Ok) == (len <= 3),
        len <= 3 ==> arg_type_of(TypeDesc::Tuple { id, len }, false, is_mut_ref)
            == Ok::<ArgClass, AbiTypeError>(ArgClass::PlainData { ty: id }),
{
}

/// Whether `t` is `Box<inner>`, written as the one-segment path `Box` with
/// the single type argument `inner`.
pub open spec fn is_box_of(t: TypeDesc, inner: TypeDesc) -> bool {
    match t {
        TypeDesc::Path { segment_count, last: Some(seg), .. } => segment_count == 1 && seg.ident@ == "Box"@
            && match seg.args {
                SegmentArgs::AngleBracketed(args) => args@.len() == 1 && args@[0] == GenericArgDesc::Type(inner),
                _ => false,
            },
        _ => false,
    }
}

/// `Box<T>`, for a `T` that is not a trait object, is plain data exactly
/// when `T` is, and is then sent as the whole `Box<T>`; an error in `T` is
/// the error of `Box<T>`.
pub proof fn lemma_box_of_plain_data(t: TypeDesc, inner: TypeDesc, is_mut_ref: bool)
    requires
        is_box_of(t, inner),
        !(inner is TraitObject),
    ensures
        arg_type_of(t, false, is_mut_ref) == (match arg_type_of(inner, false, is_mut_ref) {
            Ok(ArgClass::PlainData { .. }) => Ok(ArgClass::PlainData { ty: t.id() }),
            Ok(_) => Err(AbiTypeError::UnsupportedBoxType { ty: t.id() }),
            Err(e) => Err(e),
        }),
{
    reveal_with_fuel(arg_type_of, 2);
    reveal_strlit("Box");
    reveal_strlit("str");
    assert("Box"@[0] != "str"@[0]);
}

/// Every decimal notation is at least one digit long, and a number of two
/// digits or more has a notation of two characters or more.
proof fn lemma_decimal_len(n: nat)
    ensures
        decimal(n).len() >= 1,
        n >= 10 ==> decimal(n).len() >= 2,
    decreases n,
{
    if n >= 10 {
        lemma_decimal_len(n / 10);
    }
}

/// Distinct numbers have distinct decimal notations.
pub proof fn lemma_decimal_injective(a: nat, b: nat)
    requires
        decimal(a) == decimal(b),
    ensures
        a == b,
    decreases a,
{
    lemma_decimal_len(a);
    lemma_decimal_len(b);
    if a < 10 && b < 10 {
        assert(decimal(a)[0] == digit_char(a));
        assert(decimal(b)[0] == digit_char(b));
    } else if a >= 10 && b >= 10 {
        let da = decimal(a);
        let db = decimal(b);
        assert(da.last() == digit_char(a % 10));
        assert(db.last() == digit_char(b % 10));
        assert(da.drop_last() =~= decimal(a / 10));
        assert(db.drop_last() =~= decimal(b / 10));
        lemma_decimal_injective(a / 10, b / 10);
    } else {
        assert(decimal(a).len() != decimal(b).len());
    }
}

/// The parameters of a closure's `docall` have pairwise distinct names.
pub proof fn lemma_closure_param_names_distinct(i: nat, j: nat)
    requires
        i != j,
    ensures
        closure_param_name(i) != closure_param_name(j),
{
    if closure_param_name(i) == closure_param_name(j) {
        assert(closure_param_name(i).drop_first() =~= decimal(i));
        assert(closure_param_name(j).drop_first() =~= decimal(j));
        lemma_decimal_injective(i, j);
    }
}

/// The callee's first temporary of one argument never has the name of the
/// second temporary of any argument, and two arguments with distinct names
/// have temporaries with distinct names.
pub proof fn lemma_temporary_names_distinct(a: Seq<char>, b: Seq<char>)
    ensures
        "temp_"@ + a != "temp2_"@ + b,
        a != b ==> "temp_"@ + a != "temp_"@ + b,
        a != b ==> "temp2_"@ + a != "temp2_"@ + b,
{
    reveal_strlit("temp_");
    reveal_strlit("temp2_");
    assert(("temp_"@ + a)[4] == '_');
    assert(("temp2_"@ + b)[4] == '2');
    if a != b && "temp_"@ + a == "temp_"@ + b {
        assert(("temp_"@ + a).skip(5) =~= a);
        assert(("temp_"@ + b).skip(5) =~= b);
    }
    if a != b && "temp2_"@ + a == "temp2_"@ + b {
        assert(("temp2_"@ + a).skip(6) =~= a);
        assert(("temp2_"@ + b).skip(6) =~= b);
    }
}

/// An argument is described as sendable by reference exactly when it is not
/// always serialized, and the callee passes it on by reference exactly when
/// it may arrive as a raw pointer.
pub proof fn lemma_transfer_agrees_with_metadata(class: ArgClass)
    ensures
        can_be_sent_as_ref(class) == (transfer_of(class) != Transfer::Serialized),
        passed_by_reference(class) == (transfer_of(class) == Transfer::PointerOrSerialized),
{
}

/// The argument buffer is fixed exactly when every argument is plain data
/// with a known layout.
pub proof fn lemma_fixed_buffer_iff_all_known(args: Seq<MethodArg>)
    ensures
        (arg_buffer_of(args) is Fixed) == (forall|i: int| 0 <= i < args.len() ==> {
            &&& #[trigger] args[i].class is PlainData
            &&& args[i].layout is Some
        }),
    decreases args.len(),
{
    if args.len() > 0 {
        lemma_fixed_buffer_iff_all_known(args.drop_last());
        if known_args_size(args) is Some {
            assert forall|i: int| 0 <= i < args.len() implies {
                &&& #[trigger] args[i].class is PlainData
                &&& args[i].layout is Some
            } by {
                if i < args.len() - 1 {
                    assert(args.drop_last()[i] == args[i]);
                }
            }
        } else {
            if known_args_size(args.drop_last()) is None {
                let i = choose|i: int| 0 <= i < args.drop_last().len() && !({
                    &&& #[trigger] args.drop_last()[i].class is PlainData
                    &&& args.drop_last()[i].layout is Some
                });
                assert(args[i] == args.drop_last()[i]);
            } else {
                assert(known_arg_size(args[args.len() - 1]) is None);
            }
        }
    }
}

/// A fixed argument buffer always has room for the 4-byte version number.
pub proof fn lemma_fixed_buffer_holds_version(args: Seq<MethodArg>)
    requires
        args_size_fits(args),
    ensures
        arg_buffer_of(args) matches BufferPlan::Fixed { len } ==> len >= 4,
{
    lemma_sizes_nonnegative(args);
}

/// Known totals are never negative.
proof fn lemma_sizes_nonnegative(args: Seq<MethodArg>)
    ensures
        known_args_size(args) matches Some(total) ==> total >= 0,
    decreases args.len(),
{
    if args.len() > 0 {
        lemma_sizes_nonnegative(args.drop_last());
    }
}

/// Every trait segment the referenced-bound rules collect is the segment of
/// one of the bounds.
proof fn lemma_referenced_segments_from_bounds(bounds: Seq<BoundDesc>)
    ensures
        referenced_trait_segments(bounds) matches Ok(segs) ==> forall|k: int| 0 <= k < segs.len() ==>
            exists|i: int| 0 <= i < bounds.len() && bounds[i] == BoundDesc::Trait(Some(#[trigger] segs[k])),
    decreases bounds.len(),
{
    if bounds.len() > 0 {
        let prefix = bounds.drop_last();
        lemma_referenced_segments_from_bounds(prefix);
        if let Ok(segs) = referenced_trait_segments(bounds) {
            assert forall|k: int| 0 <= k < segs.len() implies
                exists|i: int| 0 <= i < bounds.len() && bounds[i] == BoundDesc::Trait(Some(#[trigger] segs[k])) by {
                let prev = referenced_trait_segments(prefix).unwrap();
                if k < prev.len() {
                    assert(segs[k] == prev[k]);
                    let i = choose|i: int| 0 <= i < prefix.len() && prefix[i] == BoundDesc::Trait(Some(prev[k]));
                    assert(bounds[i] == prefix[i]);
                } else {
                    assert(bounds[bounds.len() - 1] == BoundDesc::Trait(Some(segs[k])));
                }
            }
        }
    }
}

/// Every trait segment the boxed-bound rules collect is the segment of one
/// of the bounds.
proof fn lemma_boxed_segments_from_bounds(bounds: Seq<BoundDesc>)
    ensures
        boxed_trait_segments(bounds) matches Ok(segs) ==> forall|k: int| 0 <= k < segs.len() ==>
            exists|i: int| 0 <= i < bounds.len() && bounds[i] == BoundDesc::Trait(Some(#[trigger] segs[k])),
    decreases bounds.len(),
{
    if bounds.len() > 0 {
        let prefix = bounds.drop_last();
        lemma_boxed_segments_from_bounds(prefix);
        if let Ok(segs) = boxed_trait_segments(bounds) {
            assert forall|k: int| 0 <= k < segs.len() implies
                exists|i: int| 0 <= i < bounds.len() && bounds[i] == BoundDesc::Trait(Some(#[trigger] segs[k])) by {
                let prev = boxed_trait_segments(prefix).unwrap();
                if k < prev.len() {
                    assert(segs[k] == prev[k]);
                    let i = choose|i: int| 0 <= i < prefix.len() && prefix[i] == BoundDesc::Trait(Some(prev[k]));
                    assert(bounds[i] == prefix[i]);
                } else {
                    assert(bounds[bounds.len() - 1] == BoundDesc::Trait(Some(segs[k])));
                }
            }
        }
    }
}

/// Whether the trait object `t` has a trait bound whose last segment has the id `seg_id`.
pub open spec fn has_trait_segment(t: TypeDesc, seg_id: usize) -> bool {
    match t {
        TypeDesc::TraitObject { bounds, .. } => exists|i: int| 0 <= i < bounds@.len()
            && (#[trigger] bounds@[i] matches BoundDesc::Trait(Some(seg)) && seg.id == seg_id),
        _ => false,
    }
}

/// Whether the trait object `t` has a trait bound whose last segment has the
/// id `seg_id` and parenthesized arguments.
pub open spec fn has_closure_segment(t: TypeDesc, seg_id: usize) -> bool {
    match t {
        TypeDesc::TraitObject { bounds, .. } => exists|i: int| 0 <= i < bounds@.len()
            && (#[trigger] bounds@[i] matches BoundDesc::Trait(Some(seg)) && seg.id == seg_id && seg.args is Parenthesized),
        _ => false,
    }
}

/// Every id in an accepted argument's decision points at the node of the
/// argument's type that it speaks of: the argument's own type for plain data,
/// the referenced type for a reference, the slice's element type for a slice,
/// and a bound of the trait object for a trait or closure.
pub proof fn lemma_decision_points_into_argument(t: TypeDesc, is_mut_ref: bool)
    ensures
        arg_type_of(t, false, is_mut_ref) matches Ok(ArgClass::PlainData { ty }) ==> ty == t.id(),
        arg_type_of(t, false, is_mut_ref) matches Ok(ArgClass::Reference { ty }) ==>
            (t matches TypeDesc::Reference { elem, .. } && ty == elem.id()),
        arg_type_of(t, false, is_mut_ref) matches Ok(ArgClass::SliceReference { elem: e }) ==>
            (t matches TypeDesc::Reference { elem, .. } && *elem matches TypeDesc::Slice { elem_id, .. } && e == elem_id),
        arg_type_of(t, false, is_mut_ref) matches Ok(ArgClass::TraitReference { trait_seg, .. }) ==>
            (t matches TypeDesc::Reference { elem, .. } && has_trait_segment(*elem, trait_seg)),
        arg_type_of(t, false, is_mut_ref) matches Ok(ArgClass::Fn { decl, .. }) ==>
            (t matches TypeDesc::Reference { elem, .. } && has_closure_segment(*elem, decl)),
        arg_type_of(t, false, is_mut_ref) matches Ok(ArgClass::BoxedTrait { trait_seg }) ==>
            exists|inner: TypeDesc| is_box_of(t, inner) && has_trait_segment(inner, trait_seg),
{
    lemma_plain_data_is_the_declared_type(t, is_mut_ref);
    reveal_with_fuel(arg_type_of, 2);
    match t {
        TypeDesc::Reference { elem, has_lifetime, is_mut, .. } => {
            if !has_lifetime {
                if let TypeDesc::TraitObject { bounds, has_dyn, .. } = *elem {
                    lemma_referenced_segments_from_bounds(bounds@);
                    if let Ok(segs) = referenced_trait_segments(bounds@) {
                        if segs.len() == 1 {
                            let i = choose|i: int| 0 <= i < bounds@.len() && bounds@[i] == BoundDesc::Trait(Some(segs[0]));
                            assert(bounds@[i] matches BoundDesc::Trait(Some(seg)) && seg.id == segs[0].id);
                        }
                    }
                }
            }
        },
        TypeDesc::Path { segment_count, last: Some(seg), .. } => {
            if seg.ident@ == "Box"@ && segment_count == 1 {
                if let SegmentArgs::AngleBracketed(args) = seg.args {
                    if args@.len() == 1 {
                        if let GenericArgDesc::Type(inner) = args@[0] {
                            if let TypeDesc::TraitObject { bounds, .. } = inner {
                                lemma_boxed_segments_from_bounds(bounds@);
                                if let Ok(segs) = boxed_trait_segments(bounds@) {
                                    if segs.len() == 1 {
                                        let i = choose|i: int| 0 <= i < bounds@.len() && bounds@[i] == BoundDesc::Trait(Some(segs[0]));
                                        assert(bounds@[i] matches BoundDesc::Trait(Some(s)) && s.id == segs[0].id);
                                        assert(is_box_of(t, inner));
                                    }
                                }
                            }
                        }
                    }
                }
            }
        },
        _ => {},
    }
}

/// A path type whose last segment is named neither `str` nor `Box` is taken
/// by value as plain data of its own id, and behind `&` as a shared reference
/// to it, whatever the number of its segments; `&mut` to it is refused.
pub proof fn lemma_other_paths_are_plain_data(id: usize, segment_count: usize, seg: SegmentDesc, is_mut_ref: bool)
    requires
        seg.ident@ != "str"@,
        seg.ident@ != "Box"@,
    ensures
        arg_type_of(TypeDesc::Path { id, segment_count, last: Some(seg) }, false, is_mut_ref)
            == Ok::<ArgClass, AbiTypeError>(ArgClass::PlainData { ty: id }),
        arg_type_of(TypeDesc::Path { id, segment_count, last: Some(seg) }, true, false)
            == Ok::<ArgClass, AbiTypeError>(ArgClass::Reference { ty: id }),
        arg_type_of(TypeDesc::Path { id, segment_count, last: Some(seg) }, true, true)
            == Err::<ArgClass, AbiTypeError>(AbiTypeError::MutableReference { ty: id }),
{
}

/// Whether a bound is a trait bound (and not a lifetime).
pub open spec fn is_trait_bound(b: BoundDesc) -> bool {
    !(b is Lifetime)
}

/// Lifetime bounds of a boxed trait object are passed over wherever they
/// stand: the trait segments read from the bounds are those read from the
/// same bounds with every lifetime bound removed.
pub proof fn lemma_boxed_bounds_ignore_lifetimes(bounds: Seq<BoundDesc>)
    ensures
        boxed_trait_segments(bounds) == boxed_trait_segments(bounds.filter(|b: BoundDesc| is_trait_bound(b))),
    decreases bounds.len(),
{
    reveal(Seq::filter);
    let p = |b: BoundDesc| is_trait_bound(b);
    if bounds.len() > 0 {
        lemma_boxed_bounds_ignore_lifetimes(bounds.drop_last());
        let sub = bounds.drop_last().filter(p);
        assert(bounds.filter(p) == if p(bounds.last()) { sub.push(bounds.last()) } else { sub });
        if p(bounds.last()) {
            assert(sub.push(bounds.last()).drop_last() =~= sub);
            assert(sub.push(bounds.last()).last() == bounds.last());
        }
    }
}

/// `Box<dyn ..>` is decided the same way with or without its lifetime
/// bounds: two boxed trait objects that differ only in lifetime bounds are
/// taken alike.
pub proof fn lemma_boxed_trait_ignores_lifetimes(
    t1: TypeDesc,
    t2: TypeDesc,
    tid: usize,
    has_dyn: bool,
    bounds1: Vec<BoundDesc>,
    bounds2: Vec<BoundDesc>,
    is_mut_ref: bool,
)
    requires
        is_box_of(t1, TypeDesc::TraitObject { id: tid, has_dyn, bounds: bounds1 }),
        is_box_of(t2, TypeDesc::TraitObject { id: tid, has_dyn, bounds: bounds2 }),
        t1.id() == t2.id(),
        bounds2@ == bounds1@.filter(|b: BoundDesc| is_trait_bound(b)),
    ensures
        arg_type_of(t1, false, is_mut_ref) == arg_type_of(t2, false, is_mut_ref),
{
    reveal_with_fuel(arg_type_of, 2);
    reveal_strlit("Box");
    reveal_strlit("str");
    assert("Box"@[0] != "str"@[0]);
    lemma_boxed_bounds_ignore_lifetimes(bounds1@);
}

/// A method without arguments has a fixed argument buffer of just the 4-byte
/// version.
pub proof fn lemma_no_args_buffer()
    ensures
        arg_buffer_of(Seq::<MethodArg>::empty()) == (BufferPlan::Fixed { len: 4 }),
{
}

/// Appending an argument to a method whose argument buffer is fixed grows
/// the buffer by the size of the argument's type (not its alignment) where
/// it is plain data with a known layout, and makes it growable otherwise.
pub proof fn lemma_arg_buffer_append(args: Seq<MethodArg>, arg: MethodArg, len: usize)
    requires
        arg_buffer_of(args) == (BufferPlan::Fixed { len }),
        args_size_fits(args.push(arg)),
    ensures
        (arg.class is PlainData && arg.layout is Some) ==>
            arg_buffer_of(args.push(arg)) == (BufferPlan::Fixed { len: (len + arg.layout.unwrap().0) as usize }),
        !(arg.class is PlainData && arg.layout is Some) ==> arg_buffer_of(args.push(arg)) == BufferPlan::Growable,
{
    let all = args.push(arg);
    assert(all.drop_last() =~= args);
    assert(all.take(args.len() as int) =~= args);
    lemma_sizes_nonnegative(args);
    let total = known_args_size(args).unwrap();
    assert(total <= usize::MAX);
    if arg.class is PlainData && arg.layout is Some {
        assert(known_args_size(all) == Some(total + arg.layout.unwrap().0));
    }
}

/// A known return layout gives a fixed return buffer of the size of the
/// return type plus the 4-byte version, whatever its alignment.
pub proof fn lemma_ret_buffer_size(size: usize, align: usize, other_align: usize)
    requires
        size + 4 <= usize::MAX,
    ensures
        ret_buffer_of(Some((size, align))) == (BufferPlan::Fixed { len: (size + 4) as usize }),
        ret_buffer_of(Some((size, align))) == ret_buffer_of(Some((size, other_align))),
        ret_buffer_of(None) == BufferPlan::Growable,
{
}

/// Whether the callee's temporaries are declared `mut`.
pub open spec fn temps_are_mut(temps: TempDecls) -> bool {
    match temps {
        TempDecls::NoTemp => false,
        TempDecls::One { is_mut } => is_mut,
        TempDecls::Two { is_mut } => is_mut,
    }
}

/// The callee declares no temporary exactly for plain data, a second
/// temporary exactly for closures (shared or mutable), and mutable
/// temporaries exactly for mutable trait-object and closure references.
pub proof fn lemma_temporaries(class: ArgClass)
    ensures
        (temps_of(class) is NoTemp) == (class is PlainData),
        (temps_of(class) is Two) == (class is Fn),
        temps_are_mut(temps_of(class)) == (
            (class matches ArgClass::TraitReference { is_mut: true, .. }) || (class matches ArgClass::Fn { is_mut: true, .. })),
{
}

/// The value of a digit character.
pub open spec fn digit_value(c: char) -> int {
    (c as int) - ('0' as int)
}

/// The number that a sequence of decimal digits reads as, most significant first.
pub open spec fn digits_value(s: Seq<char>) -> int
    decreases s.len(),
{
    if s.len() == 0 {
        0
    } else {
        digits_value(s.drop_last()) * 10 + digit_value(s.last())
    }
}

/// The decimal notation of `n` reads back as `n`, is made of digits, and has
/// no leading zero unless `n` is zero.
pub proof fn lemma_decimal_reads_back(n: nat)
    ensures
        digits_value(decimal(n)) == n,
        forall|i: int| 0 <= i < decimal(n).len() ==> '0' <= #[trigger] decimal(n)[i] <= '9',
        n != 0 ==> decimal(n)[0] != '0',
    decreases n,
{
    if n >= 10 {
        lemma_decimal_reads_back(n / 10);
        let d = decimal(n);
        assert(d.drop_last() =~= decimal(n / 10));
        assert(digit_value(d.last()) == n % 10);
        assert((n / 10) * 10 + n % 10 == n) by (nonlinear_arith);
        assert(d[0] == decimal(n / 10)[0]);
        assert forall|i: int| 0 <= i < d.len() implies '0' <= #[trigger] d[i] <= '9' by {
            if i < d.len() - 1 {
                assert(d[i] == decimal(n / 10)[i]);
            }
        }
    } else {
        assert(digits_value(decimal(n)) == digits_value(decimal(n).drop_last()) * 10 + digit_value(decimal(n).last()));
        assert(decimal(n).drop_last().len() == 0);
    }
}

/// A reference to a `dyn` trait object with exactly one bound, a trait, is
/// decided by the trait's name: `FnOnce` is refused; `Fn` (and `FnMut` behind
/// `&mut`) with parenthesized arguments is a closure of that kind, declared
/// by that segment; any other trait is a trait reference to that segment;
/// the mutability is that of the reference.
pub proof fn lemma_single_trait_reference(id: usize, bounds: Vec<BoundDesc>, seg: SegmentDesc, is_mut_ref: bool)
    requires
        bounds@ == seq![BoundDesc::Trait(Some(seg))],
    ensures
        ({
            let r = arg_type_of(TypeDesc::TraitObject { id, has_dyn: true, bounds }, true, is_mut_ref);
            &&& (seg.ident@ != "Fn"@ && seg.ident@ != "FnMut"@ && seg.ident@ != "FnOnce"@) ==>
                r == Ok::<ArgClass, AbiTypeError>(ArgClass::TraitReference { trait_seg: seg.id, is_mut: is_mut_ref })
            &&& seg.ident@ == "FnOnce"@ ==> r == Err::<ArgClass, AbiTypeError>(AbiTypeError::FnOnceNotSupported)
            &&& (seg.ident@ == "Fn"@ && seg.args is Parenthesized) ==>
                r == Ok::<ArgClass, AbiTypeError>(ArgClass::Fn { kind: ClosureKind::Fn, decl: seg.id, is_mut: is_mut_ref })
            &&& (seg.ident@ == "FnMut"@ && seg.args is Parenthesized && is_mut_ref) ==>
                r == Ok::<ArgClass, AbiTypeError>(ArgClass::Fn { kind: ClosureKind::FnMut, decl: seg.id, is_mut: true })
            &&& (seg.ident@ == "FnMut"@ && !is_mut_ref) ==> r == Err::<ArgClass, AbiTypeError>(AbiTypeError::FnMutBehindSharedReference)
        }),
{
    reveal_strlit("Fn");
    reveal_strlit("FnMut");
    reveal_strlit("FnOnce");
    assert(seq![BoundDesc::Trait(Some(seg))].drop_last() =~= Seq::<BoundDesc>::empty());
    assert(referenced_trait_segments(Seq::<BoundDesc>::empty()) == Ok::<Seq<SegmentDesc>, AbiTypeError>(Seq::empty()));
    assert(Seq::<SegmentDesc>::empty().push(seg) =~= seq![seg]);
    assert(referenced_trait_segments(bounds@) == Ok::<Seq<SegmentDesc>, AbiTypeError>(seq![seg]));
    assert("Fn"@.len() != "FnMut"@.len());
    assert("Fn"@.len() != "FnOnce"@.len());
    assert("FnMut"@[2] != "FnOnce"@[2]);
}

/// A `Box<dyn ..>` whose bounds hold exactly one trait (beside any number of
/// lifetimes) is an owned trait object named by that trait's segment.
pub proof fn lemma_single_boxed_trait(t: TypeDesc, tid: usize, bounds: Vec<BoundDesc>, seg: SegmentDesc, is_mut_ref: bool)
    requires
        is_box_of(t, TypeDesc::TraitObject { id: tid, has_dyn: true, bounds }),
        bounds@.filter(|b: BoundDesc| is_trait_bound(b)) == seq![BoundDesc::Trait(Some(seg))],
    ensures
        arg_type_of(t, false, is_mut_ref) == Ok::<ArgClass, AbiTypeError>(ArgClass::BoxedTrait { trait_seg: seg.id }),
{
    reveal_with_fuel(arg_type_of, 2);
    reveal_strlit("Box");
    reveal_strlit("str");
    assert("Box"@[0] != "str"@[0]);
    lemma_boxed_bounds_ignore_lifetimes(bounds@);
    assert(seq![BoundDesc::Trait(Some(seg))].drop_last() =~= Seq::<BoundDesc>::empty());
    assert(boxed_trait_segments(Seq::<BoundDesc>::empty()) == Ok::<Seq<SegmentDesc>, AbiTypeError>(Seq::empty()));
    assert(Seq::<SegmentDesc>::empty().push(seg) =~= seq![seg]);
    assert(boxed_trait_segments(seq![BoundDesc::Trait(Some(seg))]) == Ok::<Seq<SegmentDesc>, AbiTypeError>(seq![seg]));
}

/// Plain data is always serialized; references, slices and `str` may travel
/// as raw pointers; trait objects and closures need compatible layouts.
pub proof fn lemma_transfer_by_kind(class: ArgClass)
    ensures
        (transfer_of(class) == Transfer::Serialized) == (class is PlainData),
        (transfer_of(class) == Transfer::PointerOrSerialized) == (class is Reference || class is SliceReference || class is Str),
        (transfer_of(class) == Transfer::CompatibleOnly) == (class is TraitReference || class is BoxedTrait || class is Fn),
{
}

} // verus!
