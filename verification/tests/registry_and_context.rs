use jq_bridge::registry::Registry;
use jq_bridge::dispatch::Context;
use jq_bridge::error::Error;

#[test]
fn register_then_take() {
    let mut reg: Registry<u32> = Registry::new();
    assert!(!reg.contains(3));
    assert!(reg.register(3, 30));
    assert!(reg.contains(3));
    assert_eq!(reg.take(3), Some(30));
    assert!(!reg.contains(3));
}

#[test]
fn take_consumes_the_handle() {
    let mut reg: Registry<u32> = Registry::new();
    assert!(reg.register(7, 70));
    assert_eq!(reg.take(7), Some(70));
    assert_eq!(reg.take(7), None);
}

#[test]
fn duplicate_handle_refused() {
    let mut reg: Registry<u32> = Registry::new();
    assert!(reg.register(1, 10));
    assert!(!reg.register(1, 11));
    assert_eq!(reg.take(1), Some(10));
    assert_eq!(reg.take(1), None);
}

#[test]
fn unknown_handle_is_none() {
    let mut reg: Registry<u32> = Registry::new();
    assert_eq!(reg.take(42), None);
    assert!(reg.register(41, 1));
    assert_eq!(reg.take(42), None);
}

#[test]
fn context_child_consumes() {
    let mut ctx: Context<u32> = Context::new();
    assert!(ctx.register(9, 90));
    assert_eq!(ctx.child(9), Ok(90));
    assert_eq!(ctx.child(9), Err(Error::InvalidProcessorId(9)));
}

#[test]
fn context_default_is_empty() {
    let mut ctx: Context<u32> = Context::default();
    assert_eq!(ctx.child(0), Err(Error::InvalidProcessorId(0)));
}
