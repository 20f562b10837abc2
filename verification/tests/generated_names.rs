use savefile_derive::closure::{closure_param_names, closure_trait_name, plan_closure_helpers};
use savefile_derive::text::{numbered, prefixed, push_decimal, same_text};

fn decimal_of(n: usize) -> String {
    let mut s = String::new();
    push_decimal(&mut s, n);
    s
}

#[test]
fn decimal_notation() {
    assert_eq!(decimal_of(0), "0");
    assert_eq!(decimal_of(7), "7");
    assert_eq!(decimal_of(10), "10");
    assert_eq!(decimal_of(1234), "1234");
    assert_eq!(decimal_of(usize::MAX), usize::MAX.to_string());
}

#[test]
fn decimal_appends() {
    let mut s = String::from("v");
    push_decimal(&mut s, 42);
    assert_eq!(s, "v42");
}

#[test]
fn numbered_names() {
    assert_eq!(numbered("x", 12), "x12");
    assert_eq!(numbered("x", 0), "x0");
}

#[test]
fn prefixed_names() {
    assert_eq!(prefixed("temp_", "count"), "temp_count");
    assert_eq!(prefixed("temp2_", "count"), "temp2_count");
}

#[test]
fn text_comparison() {
    assert!(same_text("FnMut", "FnMut"));
    assert!(!same_text("FnMut", "Fn"));
    assert!(!same_text("Box", "box"));
    assert!(same_text("", ""));
}

#[test]
fn closure_trait_names() {
    assert_eq!(closure_trait_name("__sfabi_3", "callback"), "__sfabi_3_callback");
}

#[test]
fn closure_parameter_names() {
    assert_eq!(closure_param_names(3), vec!["x0".to_string(), "x1".to_string(), "x2".to_string()]);
    assert!(closure_param_names(0).is_empty());
}

#[test]
fn closure_helper_plan() {
    let plan = plan_closure_helpers("__sfabi_3_callback", &vec![5, 6], Some(9), true);
    assert_eq!(plan.wrapper_name, "__sfabi_3_callback_wrapper");
    assert_eq!(plan.params.len(), 2);
    assert_eq!(plan.params[0].name, "x0");
    assert_eq!(plan.params[0].ty, 5);
    assert_eq!(plan.params[1].name, "x1");
    assert_eq!(plan.params[1].ty, 6);
    assert_eq!(plan.output, Some(9));
    assert!(plan.is_mut);
}

#[test]
fn closure_helper_plan_without_inputs() {
    let plan = plan_closure_helpers("t", &vec![], None, false);
    assert_eq!(plan.wrapper_name, "t_wrapper");
    assert!(plan.params.is_empty());
    assert_eq!(plan.output, None);
    assert!(!plan.is_mut);
}

#[test]
fn wrapper_names() {
    assert_eq!(savefile_derive::closure::wrapper_name("__sfabi_0_f"), "__sfabi_0_f_wrapper");
}

#[test]
fn closure_parameter_names_are_distinct() {
    let names = closure_param_names(25);
    for i in 0..names.len() {
        for j in 0..names.len() {
            if i != j {
                assert_ne!(names[i], names[j]);
            }
        }
    }
    assert_eq!(names[1], "x1");
    assert_eq!(names[11], "x11");
}

#[test]
fn temporary_names_are_distinct() {
    assert_ne!(prefixed("temp_", "2_a"), prefixed("temp2_", "a"));
    assert_ne!(prefixed("temp_", "a"), prefixed("temp_", "b"));
}
