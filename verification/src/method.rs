//! How one method of an exported trait is carried across the ABI: for each
//! argument, how the caller sends it and the callee receives it; the buffers
//! that hold the serialized arguments and return value; and the slot that
//! receives the result.
use vstd::prelude::*;
use crate::model::ArgClass;
use crate::text::prefixed;

verus! {

/// How the caller hands an argument to the callee.
#[derive(Clone, Copy, Debug, PartialEq, Eq, Structural)]
pub enum Transfer {
    /// Always serialized.
    Serialized,
    /// Sent as a raw pointer where the two sides' layouts of its type agree,
    /// and serialized otherwise.
    PointerOrSerialized,
    /// Sent as a packaged trait object; a call panics where the two sides'
    /// layouts disagree.
    CompatibleOnly,
}

/// The temporary variables the callee declares to hold an argument.
#[derive(Clone, Copy, Debug, PartialEq, Eq, Structural)]
pub enum TempDecls {
    /// None: the argument itself holds the deserialized value.
    NoTemp,
    /// One temporary, `let temp_<arg>;`, `mut` where `is_mut`.
    One { is_mut: bool },
    /// Two temporaries, `temp_<arg>` and `temp2_<arg>`, `mut` where `is_mut`.
    Two { is_mut: bool },
}

/// The buffer that holds serialized data.
#[derive(Clone, Copy, Debug, PartialEq, Eq, Structural)]
pub enum BufferPlan {
    /// A byte array of a length known when the macro runs.
    Fixed { len: usize },
    /// A buffer that grows as the data is written.
    Growable,
}

/// How the caller's result slot starts out.
#[derive(Clone, Copy, Debug, PartialEq, Eq, Structural)]
pub enum ResultSlot {
    /// Already holding `Ok(())`: the method returns nothing.
    ReadyUnit,
    /// Empty, to receive a boxed connection to a trait object.
    AwaitBoxedTrait,
    /// Empty, to receive a deserialized value.
    AwaitValue,
}

/// One argument of a method, as the planner reads it.
pub struct MethodArg {
    /// The argument's name.
    pub name: String,
    /// How the argument travels, as decided by `parse_type`.
    pub class: ArgClass,
    /// The size and alignment of the argument's type where it is `repr(C)`
    /// with a size known when the macro runs; none otherwise.
    pub layout: Option<(usize, usize)>,
}

/// What is generated for one argument.
pub struct ArgPlan {
    /// How the argument travels.
    pub class: ArgClass,
    /// The name of the callee's first temporary, `temp_<arg>`.
    pub temp_name: String,
    /// The name of the callee's second temporary, `temp2_<arg>`.
    pub temp2_name: String,
    /// Whether the callee passes `&<arg>` (rather than `<arg>`) to the method.
    pub by_reference: bool,
    /// The temporaries the callee declares.
    pub temps: TempDecls,
    /// How the caller sends the argument.
    pub transfer: Transfer,
}

/// What is generated for one method.
pub struct MethodPlan {
    /// One plan per argument, in order.
    pub args: Vec<ArgPlan>,
    /// The buffer for the serialized arguments (with the leading version number).
    pub arg_buffer: BufferPlan,
    /// The buffer for the serialized return value; none where the method returns `()`.
    pub ret_buffer: Option<BufferPlan>,
    /// How the caller's result slot starts out.
    pub result_slot: ResultSlot,
}

/// How an argument of this class is sent.
pub open spec fn transfer_of(class: ArgClass) -> Transfer {
    match class {
        ArgClass::PlainData { .. } => Transfer::Serialized,
        ArgClass::Reference { .. } | ArgClass::SliceReference { .. } | ArgClass::Str => Transfer::PointerOrSerialized,
        ArgClass::TraitReference { .. } | ArgClass::BoxedTrait { .. } | ArgClass::Fn { .. } => Transfer::CompatibleOnly,
    }
}

/// The temporaries the callee declares for an argument of this class.
pub open spec fn temps_of(class: ArgClass) -> TempDecls {
    match class {
        ArgClass::PlainData { .. } => TempDecls::NoTemp,
        ArgClass::TraitReference { is_mut, .. } => TempDecls::One { is_mut },
        ArgClass::Fn { is_mut, .. } => TempDecls::Two { is_mut },
        _ => TempDecls::One { is_mut: false },
    }
}

/// Whether the callee passes the argument to the method by reference.
pub open spec fn passed_by_reference(class: ArgClass) -> bool {
    class is Reference || class is SliceReference || class is Str
}

/// Whether the method's metadata says the argument can be sent as a reference.
pub open spec fn can_be_sent_as_ref(class: ArgClass) -> bool {
    !(class is PlainData)
}

/// The size an argument adds to a fixed argument buffer: that of its type,
/// where it is plain data with a known layout; none otherwise.
pub open spec fn known_arg_size(arg: MethodArg) -> Option<int> {
    match (arg.class, arg.layout) {
        (ArgClass::PlainData { .. }, Some((size, _))) => Some(size as int),
        _ => None,
    }
}

/// The total size of the arguments, where every one of them is known.
pub open spec fn known_args_size(args: Seq<MethodArg>) -> Option<int>
    decreases args.len(),
{
    if args.len() == 0 {
        Some(0)
    } else {
        match (known_args_size(args.drop_last()), known_arg_size(args.last())) {
            (Some(total), Some(size)) => Some(total + size),
            _ => None,
        }
    }
}

/// The sizes that the planner adds up fit in a `usize`: every running total
/// over the arguments, and the final total with the 4 bytes of the version.
pub open spec fn args_size_fits(args: Seq<MethodArg>) -> bool {
    &&& forall|n: int| 0 <= n <= args.len() ==> (#[trigger] known_args_size(args.take(n)) matches Some(total) ==> total <= usize::MAX)
    &&& known_args_size(args) matches Some(total) ==> total + 4 <= usize::MAX
}

/// The argument buffer: fixed, 4 bytes for the version plus the arguments'
/// sizes, where all of them are known; growable otherwise.
pub open spec fn arg_buffer_of(args: Seq<MethodArg>) -> BufferPlan {
    match known_args_size(args) {
        Some(total) => BufferPlan::Fixed { len: (total + 4) as usize },
        None => BufferPlan::Growable,
    }
}

/// The return buffer: fixed, 4 bytes for the version plus the size of the
/// return type, where its layout is known; growable otherwise.
pub open spec fn ret_buffer_of(layout: Option<(usize, usize)>) -> BufferPlan {
    match layout {
        Some((size, _)) => BufferPlan::Fixed { len: (size + 4) as usize },
        None => BufferPlan::Growable,
    }
}

/// How the result slot starts out.
pub open spec fn result_slot_of(no_return: bool, returns_boxed_trait: bool) -> ResultSlot {
    if no_return {
        ResultSlot::ReadyUnit
    } else if returns_boxed_trait {
        ResultSlot::AwaitBoxedTrait
    } else {
        ResultSlot::AwaitValue
    }
}

/// The plan for one argument named `name` of this class.
pub open spec fn is_arg_plan(plan: ArgPlan, name: Seq<char>, class: ArgClass) -> bool {
    &&& plan.class == class
    &&& plan.temp_name@ == "temp_"@ + name
    &&& plan.temp2_name@ == "temp2_"@ + name
    &&& plan.by_reference == passed_by_reference(class)
    &&& plan.temps == temps_of(class)
    &&& plan.transfer == transfer_of(class)
}

/// Plans the generated code for one argument named `name` of this class.
pub fn plan_argument(name: &str, class: ArgClass) -> (r: ArgPlan)
    ensures
        is_arg_plan(r, name@, class),
{
    let (by_reference, temps, transfer) = match class {
        ArgClass::PlainData { .. } => (false, TempDecls::NoTemp, Transfer::Serialized),
        ArgClass::Reference { .. } => (true, TempDecls::One { is_mut: false }, Transfer::PointerOrSerialized),
        ArgClass::SliceReference { .. } => (true, TempDecls::One { is_mut: false }, Transfer::PointerOrSerialized),
        ArgClass::Str => (true, TempDecls::One { is_mut: false }, Transfer::PointerOrSerialized),
        ArgClass::BoxedTrait { .. } => (false, TempDecls::One { is_mut: false }, Transfer::CompatibleOnly),
        ArgClass::TraitReference { is_mut, .. } => (false, TempDecls::One { is_mut }, Transfer::CompatibleOnly),
        ArgClass::Fn { is_mut, .. } => (false, TempDecls::Two { is_mut }, Transfer::CompatibleOnly),
    };
    ArgPlan {
        class,
        temp_name: prefixed("temp_", name),
        temp2_name: prefixed("temp2_", name),
        by_reference,
        temps,
        transfer,
    }
}

/// The size an argument adds to a fixed argument buffer, if known.
fn arg_size(arg: &MethodArg) -> (r: Option<usize>)
    ensures
        match known_arg_size(*arg) {
            Some(size) => r == Some(size as usize),
            None => r is None,
        },
{
    match (arg.class, arg.layout) {
        (ArgClass::PlainData { .. }, Some((size, _))) => Some(size),
        _ => None,
    }
}

/// Once an argument's size is unknown, so is the total of any longer run.
proof fn lemma_unknown_size_persists(args: Seq<MethodArg>, n: int)
    requires
        0 <= n <= args.len(),
        known_args_size(args.take(n)) is None,
    ensures
        known_args_size(args) is None,
    decreases args.len() - n,
{
    if n < args.len() {
        assert(args.take(n + 1).drop_last() =~= args.take(n));
        lemma_unknown_size_persists(args, n + 1);
    } else {
        assert(args.take(n) =~= args);
    }
}

/// Chooses the buffer for a method's serialized arguments.
pub fn plan_arg_buffer(args: &Vec<MethodArg>) -> (r: BufferPlan)
    requires
        args_size_fits(args@),
    ensures
        r == arg_buffer_of(args@),
{
    let mut total: usize = 0;
    let mut i: usize = 0;
    while i < args.len()
        invariant
            i <= args@.len(),
            args_size_fits(args@),
            known_args_size(args@.take(i as int)) == Some(total as int),
        decreases args@.len() - i,
    {
        proof {
            assert(args@.take(i + 1).drop_last() =~= args@.take(i as int));
        }
        match arg_size(&args[i]) {
            Some(size) => {
                proof {
                    assert(known_args_size(args@.take(i + 1)) == Some(total + size));
                }
                total = total + size;
            },
            None => {
                proof {
                    lemma_unknown_size_persists(args@, i + 1);
                }
                return BufferPlan::Growable;
            },
        }
        i = i + 1;
    }
    proof {
        assert(args@.take(i as int) =~= args@);
    }
    BufferPlan::Fixed { len: total + 4 }
}

/// Chooses the buffer for a method's serialized return value, from the
/// return type's layout where it is known.
pub fn plan_ret_buffer(layout: Option<(usize, usize)>) -> (r: BufferPlan)
    requires
        layout matches Some((size, _)) ==> size + 4 <= usize::MAX,
    ensures
        r == ret_buffer_of(layout),
{
    match layout {
        Some((size, _)) => BufferPlan::Fixed { len: size + 4 },
        None => BufferPlan::Growable,
    }
}

/// Chooses how the caller's result slot starts out.
pub fn plan_result_slot(no_return: bool, returns_boxed_trait: bool) -> (r: ResultSlot)
    ensures
        r == result_slot_of(no_return, returns_boxed_trait),
{
    if no_return {
        ResultSlot::ReadyUnit
    } else if returns_boxed_trait {
        ResultSlot::AwaitBoxedTrait
    } else {
        ResultSlot::AwaitValue
    }
}

/// Plans the generated code for one method: its arguments, in order, the
/// argument and return buffers, and the result slot. `ret_layout` is the
/// return type's layout where it is known; it is read only where the method
/// returns a value.
pub fn plan_method(args: &Vec<MethodArg>, ret_layout: Option<(usize, usize)>, no_return: bool, returns_boxed_trait: bool) -> (r: MethodPlan)
    requires
        args_size_fits(args@),
        !no_return ==> (ret_layout matches Some((size, _)) ==> size + 4 <= usize::MAX),
    ensures
        r.args@.len() == args@.len(),
        forall|i: int| 0 <= i < args@.len() ==> is_arg_plan(#[trigger] r.args@[i], args@[i].name@, args@[i].class),
        r.arg_buffer == arg_buffer_of(args@),
        r.ret_buffer == (if no_return { None } else { Some(ret_buffer_of(ret_layout)) }),
        r.result_slot == result_slot_of(no_return, returns_boxed_trait),
{
    let mut plans: Vec<ArgPlan> = Vec::new();
    let mut i: usize = 0;
    while i < args.len()
        invariant
            i <= args@.len(),
            plans@.len() == i,
            forall|j: int| 0 <= j < i ==> is_arg_plan(#[trigger] plans@[j], args@[j].name@, args@[j].class),
        decreases args@.len() - i,
    {
        let plan = plan_argument(args[i].name.as_str(), args[i].class);
        plans.push(plan);
        i = i + 1;
    }
    let arg_buffer = plan_arg_buffer(args);
    let ret_buffer = if no_return {
        None
    } else {
        Some(plan_ret_buffer(ret_layout))
    };
    MethodPlan { args: plans, arg_buffer, ret_buffer, result_slot: plan_result_slot(no_return, returns_boxed_trait) }
}

} // verus!
