use savefile_derive::method::{
    plan_arg_buffer, plan_argument, plan_method, plan_result_slot, plan_ret_buffer, BufferPlan, MethodArg, ResultSlot,
    TempDecls, Transfer,
};
use savefile_derive::model::{ArgClass, ClosureKind};

fn arg(name: &str, class: ArgClass, layout: Option<(usize, usize)>) -> MethodArg {
    MethodArg { name: name.to_string(), class, layout }
}

#[test]
fn plain_argument_plan() {
    let p = plan_argument("count", ArgClass::PlainData { ty: 1 });
    assert_eq!(p.temp_name, "temp_count");
    assert_eq!(p.temp2_name, "temp2_count");
    assert!(!p.by_reference);
    assert_eq!(p.temps, TempDecls::NoTemp);
    assert_eq!(p.transfer, Transfer::Serialized);
}

#[test]
fn reference_argument_plans() {
    for class in [ArgClass::Reference { ty: 1 }, ArgClass::SliceReference { elem: 1 }, ArgClass::Str] {
        let p = plan_argument("data", class);
        assert!(p.by_reference);
        assert_eq!(p.temps, TempDecls::One { is_mut: false });
        assert_eq!(p.transfer, Transfer::PointerOrSerialized);
        assert_eq!(p.class, class);
    }
}

#[test]
fn trait_and_closure_argument_plans() {
    let p = plan_argument("l", ArgClass::TraitReference { trait_seg: 1, is_mut: true });
    assert!(!p.by_reference);
    assert_eq!(p.temps, TempDecls::One { is_mut: true });
    assert_eq!(p.transfer, Transfer::CompatibleOnly);
    let p = plan_argument("b", ArgClass::BoxedTrait { trait_seg: 1 });
    assert_eq!(p.temps, TempDecls::One { is_mut: false });
    assert_eq!(p.transfer, Transfer::CompatibleOnly);
    let p = plan_argument("f", ArgClass::Fn { kind: ClosureKind::FnMut, decl: 1, is_mut: true });
    assert_eq!(p.temps, TempDecls::Two { is_mut: true });
    assert_eq!(p.transfer, Transfer::CompatibleOnly);
    assert_eq!(p.temp2_name, "temp2_f");
}

#[test]
fn fixed_argument_buffer() {
    let args = vec![arg("a", ArgClass::PlainData { ty: 1 }, Some((4, 4))), arg("b", ArgClass::PlainData { ty: 2 }, Some((1, 1)))];
    assert_eq!(plan_arg_buffer(&args), BufferPlan::Fixed { len: 9 });
}

#[test]
fn no_arguments_fixed_buffer_of_version_only() {
    assert_eq!(plan_arg_buffer(&vec![]), BufferPlan::Fixed { len: 4 });
}

#[test]
fn growable_argument_buffer() {
    let unknown = vec![arg("a", ArgClass::PlainData { ty: 1 }, Some((4, 4))), arg("b", ArgClass::PlainData { ty: 2 }, None)];
    assert_eq!(plan_arg_buffer(&unknown), BufferPlan::Growable);
    let by_ref = vec![arg("a", ArgClass::Reference { ty: 1 }, Some((4, 4)))];
    assert_eq!(plan_arg_buffer(&by_ref), BufferPlan::Growable);
}

#[test]
fn return_buffer() {
    assert_eq!(plan_ret_buffer(Some((8, 8))), BufferPlan::Fixed { len: 12 });
    assert_eq!(plan_ret_buffer(None), BufferPlan::Growable);
}

#[test]
fn result_slots() {
    assert_eq!(plan_result_slot(true, false), ResultSlot::ReadyUnit);
    assert_eq!(plan_result_slot(true, true), ResultSlot::ReadyUnit);
    assert_eq!(plan_result_slot(false, true), ResultSlot::AwaitBoxedTrait);
    assert_eq!(plan_result_slot(false, false), ResultSlot::AwaitValue);
}

#[test]
fn whole_method_plan() {
    let args = vec![
        arg("x", ArgClass::PlainData { ty: 1 }, Some((2, 2))),
        arg("name", ArgClass::Str, None),
    ];
    let plan = plan_method(&args, Some((8, 8)), false, false);
    assert_eq!(plan.args.len(), 2);
    assert_eq!(plan.args[0].temp_name, "temp_x");
    assert_eq!(plan.args[1].temp_name, "temp_name");
    assert_eq!(plan.args[1].transfer, Transfer::PointerOrSerialized);
    assert_eq!(plan.arg_buffer, BufferPlan::Growable);
    assert_eq!(plan.ret_buffer, Some(BufferPlan::Fixed { len: 12 }));
    assert_eq!(plan.result_slot, ResultSlot::AwaitValue);
}

#[test]
fn unit_method_plan() {
    let args = vec![arg("x", ArgClass::PlainData { ty: 1 }, Some((2, 2)))];
    let plan = plan_method(&args, None, true, false);
    assert_eq!(plan.arg_buffer, BufferPlan::Fixed { len: 6 });
    assert_eq!(plan.ret_buffer, None);
    assert_eq!(plan.result_slot, ResultSlot::ReadyUnit);
}

#[test]
fn transfer_agrees_with_reference_passing() {
    let classes = [
        ArgClass::PlainData { ty: 0 },
        ArgClass::Reference { ty: 0 },
        ArgClass::SliceReference { elem: 0 },
        ArgClass::Str,
        ArgClass::TraitReference { trait_seg: 0, is_mut: false },
        ArgClass::BoxedTrait { trait_seg: 0 },
        ArgClass::Fn { kind: ClosureKind::Fn, decl: 0, is_mut: false },
    ];
    for class in classes {
        let p = plan_argument("a", class);
        assert_eq!(p.by_reference, p.transfer == Transfer::PointerOrSerialized);
        assert_eq!(matches!(class, ArgClass::PlainData { .. }), p.transfer == Transfer::Serialized);
    }
}

#[test]
fn fixed_buffer_needs_every_layout() {
    let args = vec![
        arg("a", ArgClass::PlainData { ty: 1 }, Some((4, 4))),
        arg("b", ArgClass::PlainData { ty: 2 }, Some((8, 8))),
        arg("c", ArgClass::PlainData { ty: 3 }, Some((1, 1))),
    ];
    assert_eq!(plan_arg_buffer(&args), BufferPlan::Fixed { len: 17 });
    let args = vec![
        arg("a", ArgClass::PlainData { ty: 1 }, None),
        arg("b", ArgClass::PlainData { ty: 2 }, Some((8, 8))),
    ];
    assert_eq!(plan_arg_buffer(&args), BufferPlan::Growable);
}
