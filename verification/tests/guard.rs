use try_catch_core::{
    closure_throw_guard, guard_closure, guard_item, throw_guard, throw_guard_body, wrap_closure,
    wrap_func, Closure, FnOrClosure, Function, GuardError,
};

fn tokens(text: &str) -> String {
    text.parse::<proc_macro2::TokenStream>().unwrap().to_string()
}

const SYNC_FN: &str = "fn example(a: i32) -> i32 { a + 1 }";
const ASYNC_FN: &str = "pub async fn fetch(id: u32) -> u32 { load(id).await }";

#[test]
fn test_parsing() -> Result<(), GuardError> {
    let function_code = r#"
            fn example(a: i32) -> i32 {
                a + 1
            }
        "#;

    let closure_code = r#"
            |a: i32| a + 1
        "#;

    assert!(matches!(FnOrClosure::parse(function_code)?, FnOrClosure::Function(_)));
    assert!(matches!(FnOrClosure::parse(closure_code)?, FnOrClosure::Closure(_)));

    Ok(())
}

#[test]
fn neither_function_nor_closure_is_refused() {
    assert!(matches!(FnOrClosure::parse("struct Point;"), Err(GuardError::NotFnOrClosure)));
    assert!(matches!(FnOrClosure::parse("a + 1"), Err(GuardError::NotFnOrClosure)));
    assert!(matches!(FnOrClosure::parse(""), Err(GuardError::NotFnOrClosure)));
}

#[test]
fn function_facts_are_read_from_the_signature() {
    let plain = Function::parse(SYNC_FN).unwrap();
    assert!(!plain.is_const());
    assert!(!plain.is_async());
    assert!(!plain.is_variadic());
    assert_eq!(plain.block(), tokens("{ a + 1 }"));

    let suspendable = Function::parse(ASYNC_FN).unwrap();
    assert!(suspendable.is_async());
    assert!(!suspendable.is_const());

    let constant = Function::parse("const fn one() -> u8 { 1 }").unwrap();
    assert!(constant.is_const());
    assert!(!constant.is_async());

    let variadic = Function::parse("unsafe extern \"C\" fn log(fmt: *const u8, ...) {}").unwrap();
    assert!(variadic.is_variadic());

    assert!(Function::parse("|a: i32| a + 1").is_none());
}

#[test]
fn closure_facts_are_read_from_its_head() {
    let plain = Closure::parse("move |a: i32| a + 1").unwrap();
    assert!(!plain.is_const());
    assert!(!plain.is_async());
    assert_eq!(plain.body(), tokens("a + 1"));

    let suspendable = Closure::parse("async |a: i32| a + 1").unwrap();
    assert!(suspendable.is_async());

    let message = Closure::parse(SYNC_FN).err().unwrap();
    assert!(!message.is_empty());
}

#[test]
fn synchronous_body_is_handed_to_the_driver() {
    assert_eq!(
        throw_guard_body(false, "{ a + 1 }"),
        "::rust_try_catch::__throw_driver(|| { a + 1 })"
    );
    assert_eq!(throw_guard_body(false, ""), "::rust_try_catch::__throw_driver(|| )");
}

#[test]
fn suspendable_body_is_driven_poll_by_poll() {
    assert_eq!(
        throw_guard_body(true, "{ work().await }"),
        "{ let mut fut = ::core::pin::pin!(async { { work().await } }); \
         ::core::future::poll_fn(move |cx| { ::rust_try_catch::__throw_driver(|| { \
         ::core::future::Future::poll(::core::pin::Pin::as_mut(&mut fut), cx) }) }).await }"
    );
}

#[test]
fn function_body_runs_under_the_driver() {
    let expected = tokens(
        "fn example(a: i32) -> i32 { ::rust_try_catch::__throw_driver(| | { a + 1 }) }",
    );
    assert_eq!(throw_guard("", SYNC_FN), expected);
    assert_eq!(guard_item("", SYNC_FN), Ok(expected.clone()));
    assert_eq!(wrap_func(&Function::parse(SYNC_FN).unwrap()), Ok(expected));
}

#[test]
fn function_keeps_attributes_visibility_and_signature() {
    let code = "#[inline] pub(crate) unsafe fn get<T: Copy>(slot: &[T], at: usize) -> T where T: Send { slot[at] }";
    let expected = tokens(
        "#[inline] pub(crate) unsafe fn get<T: Copy>(slot: &[T], at: usize) -> T where T: Send \
         { ::rust_try_catch::__throw_driver(| | { slot[at] }) }",
    );
    assert_eq!(throw_guard("", code), expected);
}

#[test]
fn async_function_is_guarded_at_every_poll() {
    let expected = tokens(
        "pub async fn fetch(id: u32) -> u32 { { \
         let mut fut = ::core::pin::pin!(async { { load(id).await } }); \
         ::core::future::poll_fn(move |cx| { \
             ::rust_try_catch::__throw_driver(| | { \
                 ::core::future::Future::poll(::core::pin::Pin::as_mut(&mut fut), cx) \
             }) \
         }).await \
         } }",
    );
    assert_eq!(throw_guard("", ASYNC_FN), expected);
}

#[test]
fn closure_body_runs_under_the_driver() {
    let expected = tokens("|a: i32| ::rust_try_catch::__throw_driver(| | a + 1)");
    assert_eq!(throw_guard("", "|a: i32| a + 1"), expected);
    assert_eq!(closure_throw_guard("|a: i32| a + 1"), expected);
    assert_eq!(guard_closure("|a: i32| a + 1"), Ok(expected.clone()));
    assert_eq!(wrap_closure(&Closure::parse("|a: i32| a + 1").unwrap()), Ok(expected));
}

#[test]
fn closure_with_return_type_keeps_a_block() {
    let expected = tokens(
        "move |a: i32| -> i32 { ::rust_try_catch::__throw_driver(| | { a + 1 }) }",
    );
    assert_eq!(closure_throw_guard("move |a: i32| -> i32 { a + 1 }"), expected);
}

#[test]
fn async_closure_is_guarded_at_every_poll() {
    let expected = tokens(
        "async |id: u32| { \
         let mut fut = ::core::pin::pin!(async { load(id).await }); \
         ::core::future::poll_fn(move |cx| { \
             ::rust_try_catch::__throw_driver(| | { \
                 ::core::future::Future::poll(::core::pin::Pin::as_mut(&mut fut), cx) \
             }) \
         }).await \
         }",
    );
    assert_eq!(closure_throw_guard("async |id: u32| load(id).await"), expected);
}

#[test]
fn const_function_is_refused() {
    let code = "const fn one() -> u8 { 1 }";
    assert_eq!(guard_item("", code), Err(GuardError::ConstTarget));
    assert_eq!(wrap_func(&Function::parse(code).unwrap()), Err(GuardError::ConstTarget));
    let text = throw_guard("", code);
    assert_eq!(text, GuardError::ConstTarget.into_compile_error());
    assert!(text.contains("\"can't drive try catch logic in const\""));
    assert_ne!(text, "can't drive try catch logic in const");
}

#[test]
fn variadic_function_is_refused() {
    let code = "unsafe extern \"C\" fn log(fmt: *const u8, ...) {}";
    assert_eq!(guard_item("", code), Err(GuardError::VariadicTarget));
    let text = throw_guard("", code);
    assert!(text.contains("\"using variadic arguments would cause UB!!!\""));
}

#[test]
fn const_is_reported_before_variadic() {
    let code = "const unsafe extern \"C\" fn log(fmt: *const u8, ...) {}";
    assert_eq!(guard_item("", code), Err(GuardError::ConstTarget));
}

#[test]
fn const_closure_is_refused() {
    let code = "const |a: i32| a + 1";
    assert_eq!(guard_closure(code), Err(GuardError::ConstTarget));
    assert_eq!(guard_item("", code), Err(GuardError::ConstTarget));
    assert_eq!(wrap_closure(&Closure::parse(code).unwrap()), Err(GuardError::ConstTarget));
}

#[test]
fn attribute_arguments_are_refused() {
    assert_eq!(
        guard_item("strict", SYNC_FN),
        Err(GuardError::UnexpectedAttributes(String::from("strict")))
    );
    assert_eq!(
        guard_item("strict", "struct Point;"),
        Err(GuardError::UnexpectedAttributes(String::from("strict")))
    );
    let text = throw_guard("strict", SYNC_FN);
    assert_eq!(text, GuardError::UnexpectedAttributes(String::from("strict")).into_compile_error());
    assert!(text.contains("Unexpected attributes"));
}

#[test]
fn other_items_are_refused_by_the_attribute() {
    assert_eq!(guard_item("", "struct Point;"), Err(GuardError::NotFnOrClosure));
    let text = throw_guard("", "struct Point;");
    assert!(text.contains("\"Expected either a function or closure\""));
}

#[test]
fn closure_form_refuses_a_function_with_the_parser_message() {
    let message = Closure::parse(SYNC_FN).err().unwrap();
    assert_eq!(guard_closure(SYNC_FN), Err(GuardError::NotClosure(message.clone())));
    assert_eq!(closure_throw_guard(SYNC_FN), GuardError::NotClosure(message).into_compile_error());
}

#[test]
fn every_refusal_has_its_message() {
    assert_eq!(
        GuardError::UnexpectedAttributes(String::from("a, b")).message(),
        "Unexpected attributes \"a, b\""
    );
    assert_eq!(GuardError::ConstTarget.message(), "can't drive try catch logic in const");
    assert_eq!(GuardError::VariadicTarget.message(), "using variadic arguments would cause UB!!!");
    assert_eq!(GuardError::NotFnOrClosure.message(), "Expected either a function or closure");
    assert_eq!(GuardError::NotClosure(String::from("expected `|`")).message(), "expected `|`");
    assert_eq!(GuardError::Rewrite.message(), "the guarded body could not be put in place");
}

#[test]
fn rendered_error_is_an_invocation_not_the_bare_message() {
    let text = GuardError::NotFnOrClosure.into_compile_error();
    assert!(text.starts_with(":: core ::"));
    assert!(text.ends_with("}"));
    assert!(text.contains("\"Expected either a function or closure\""));
}
