use try_catch_core::{escalation_message, throw_driver, Interception, Signal, Thrown, Verdict};
use std::any::{Any, TypeId};
use std::backtrace::Backtrace;

type Payload = Box<dyn Any + Send>;
type Fault = Box<dyn Any + Send>;

#[test]
fn escalation_message_names_type_and_context() {
    assert_eq!(
        escalation_message("alloc::string::String", "src/main.rs:3"),
        "unhandled exception alloc::string::String at src/main.rs:3"
    );
    assert_eq!(escalation_message("", ""), "unhandled exception  at ");
}

#[test]
fn completed_body_returns_its_value() {
    match throw_driver(Interception::<u64, Payload, Fault>::Completed(42)) {
        Verdict::Return(value) => assert_eq!(value, 42),
        _ => panic!("the value must be returned"),
    }
}

#[test]
fn fault_passes_through_unchanged() {
    let fault: Fault = Box::new(String::from("index out of bounds"));
    match throw_driver(Interception::<u64, Payload, Fault>::Unwound(Signal::Fault(fault))) {
        Verdict::Resume(fault) => {
            assert_eq!(*fault.downcast::<String>().unwrap(), "index out of bounds");
        }
        _ => panic!("the fault must pass through"),
    }
}

#[test]
fn unhandled_carrier_becomes_fatal() {
    let carrier: Thrown<Payload> = Thrown::new(
        Box::new(7u8),
        TypeId::of::<u8>(),
        "u8",
        Backtrace::disabled(),
    );
    let context = carrier.backtrace.to_string();
    match throw_driver(Interception::<u64, Payload, Fault>::Unwound(Signal::Carrier(carrier))) {
        Verdict::Fatal(message) => {
            assert!(message.starts_with("unhandled exception u8 at "));
            assert_eq!(message, format!("unhandled exception u8 at {}", context));
        }
        _ => panic!("the carrier must be escalated"),
    }
}

#[test]
fn escalation_holds_the_captured_context() {
    let carrier: Thrown<Payload> = Thrown::new(
        Box::new("late"),
        TypeId::of::<&'static str>(),
        "&str",
        Backtrace::force_capture(),
    );
    let context = carrier.backtrace.to_string();
    assert_eq!(carrier.escalation(), format!("unhandled exception &str at {}", context));
}
