//! The helper items emitted for an argument that is a reference to a closure:
//! a temporary trait with one `docall` method, and a wrapper struct that holds
//! a pointer to the closure and implements that trait.
use vstd::prelude::*;
use crate::text::{decimal, numbered};

verus! {

/// The name of the `i`-th parameter of a closure's `docall`: `x0`, `x1`, ...
pub open spec fn closure_param_name(i: nat) -> Seq<char> {
    seq!['x'] + decimal(i)
}

/// One parameter of the temporary trait's `docall` method.
pub struct ClosureParam {
    /// The parameter's name.
    pub name: String,
    /// The id of its type, the closure's input type at the same position.
    pub ty: usize,
}

/// What the helper items for one closure argument are made of.
pub struct ClosureHelperPlan {
    /// The name of the wrapper struct.
    pub wrapper_name: String,
    /// The parameters of `docall`, one for each input of the closure, in order.
    pub params: Vec<ClosureParam>,
    /// The id of the closure's output type; none where it returns `()`.
    pub output: Option<usize>,
    /// Whether `docall` takes `&mut self` and the wrapper holds a `*mut`
    /// pointer (for `FnMut`), or takes `&self` with a `*const` pointer.
    pub is_mut: bool,
}

/// The name of the temporary trait for a closure argument: the name the
/// generator handed out, an underscore, and the argument's name.
pub fn closure_trait_name(generated: &str, arg_name: &str) -> (r: String)
    ensures
        r@ == generated@ + seq!['_'] + arg_name@,
{
    proof {
        reveal_strlit("_");
    }
    let mut out = String::from_str(generated);
    out.append("_");
    out.append(arg_name);
    out
}

/// The name of the wrapper struct of a closure argument's temporary trait.
pub fn wrapper_name(temp_trait_name: &str) -> (r: String)
    ensures
        r@ == temp_trait_name@ + "_wrapper"@,
{
    let mut out = String::from_str(temp_trait_name);
    out.append("_wrapper");
    out
}

/// The parameter names `x0`, `x1`, ... of a closure with `count` inputs.
pub fn closure_param_names(count: usize) -> (r: Vec<String>)
    ensures
        r@.len() == count,
        forall|i: int| 0 <= i < count ==> #[trigger] r@[i]@ == closure_param_name(i as nat),
{
    let mut names: Vec<String> = Vec::new();
    let mut i: usize = 0;
    while i < count
        invariant
            i <= count,
            names@.len() == i,
            forall|j: int| 0 <= j < i ==> #[trigger] names@[j]@ == closure_param_name(j as nat),
        decreases count - i,
    {
        proof {
            reveal_strlit("x");
        }
        let name = numbered("x", i);
        names.push(name);
        i = i + 1;
    }
    names
}

/// Lays out the helper items for a closure argument whose temporary trait is
/// named `temp_trait_name`, with the closure's input type ids, its output
/// type id (if any), and whether it is called through `&mut`.
pub fn plan_closure_helpers(temp_trait_name: &str, inputs: &Vec<usize>, output: Option<usize>, is_mut: bool) -> (r: ClosureHelperPlan)
    ensures
        r.wrapper_name@ == temp_trait_name@ + "_wrapper"@,
        r.params@.len() == inputs@.len(),
        forall|i: int| 0 <= i < inputs@.len() ==> {
            &&& #[trigger] r.params@[i].name@ == closure_param_name(i as nat)
            &&& r.params@[i].ty == inputs@[i]
        },
        r.output == output,
        r.is_mut == is_mut,
{
    let wrapper_name = wrapper_name(temp_trait_name);
    let mut params: Vec<ClosureParam> = Vec::new();
    let mut i: usize = 0;
    while i < inputs.len()
        invariant
            i <= inputs@.len(),
            params@.len() == i,
            forall|j: int| 0 <= j < i ==> {
                &&& #[trigger] params@[j].name@ == closure_param_name(j as nat)
                &&& params@[j].ty == inputs@[j]
            },
        decreases inputs@.len() - i,
    {
        proof {
            reveal_strlit("x");
        }
        let name = numbered("x", i);
        params.push(ClosureParam { name, ty: inputs[i] });
        i = i + 1;
    }
    ClosureHelperPlan { wrapper_name, params, output, is_mut }
}

} // verus!
