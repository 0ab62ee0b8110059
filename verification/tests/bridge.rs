use command_bridge::bridge::{Bridge, ConfigError, Handler, Invocation, StartupError};
use command_bridge::response::{ErrorKind, Response};
use command_bridge::value::Value;

fn invocation(name: &str, args: Vec<Value>) -> Invocation {
    Invocation { name: name.to_string(), args }
}

fn expect_success(r: Response) -> Value {
    match r {
        Response::Success(v) => v,
        Response::Failure(kind, message) => {
            panic!("expected success, got {:?}: {}", kind, message)
        }
    }
}

fn expect_failure(r: Response) -> (ErrorKind, String) {
    match r {
        Response::Success(v) => panic!("expected failure, got {:?}", v),
        Response::Failure(kind, message) => (kind, message),
    }
}

fn greet_bridge() -> Bridge {
    let mut b = Bridge::new();
    assert!(b.register("greet".to_string(), Handler::Greet).is_ok());
    assert!(b.start(Ok(())).is_ok());
    b
}

fn greet_and_sum_bridge() -> Bridge {
    let mut b = Bridge::new();
    assert!(b.register("greet".to_string(), Handler::Greet).is_ok());
    assert!(b.register("add".to_string(), Handler::Sum).is_ok());
    assert!(b.start(Ok(())).is_ok());
    b
}

#[test]
fn greet_returns_fixed_text() {
    let b = greet_bridge();
    let v = expect_success(b.invoke(&invocation("greet", vec![])));
    match v {
        Value::Text(s) => assert_eq!(s, "Hello from Rust!"),
        other => panic!("expected text, got {:?}", other),
    }
}

#[test]
fn unknown_command_is_reported_with_its_name() {
    let b = greet_bridge();
    let (kind, message) = expect_failure(b.invoke(&invocation("bye", vec![])));
    assert_eq!(kind, ErrorKind::UnknownCommand);
    assert_eq!(message, "no such command: bye");
}

#[test]
fn empty_registry_knows_no_command() {
    let mut b = Bridge::new();
    assert!(b.start(Ok(())).is_ok());
    let (kind, message) = expect_failure(b.invoke(&invocation("greet", vec![])));
    assert_eq!(kind, ErrorKind::UnknownCommand);
    assert_eq!(message, "no such command: greet");
}

#[test]
fn sum_of_two_integers() {
    let b = greet_and_sum_bridge();
    let v = expect_success(b.invoke(&invocation("add", vec![Value::Int(2), Value::Int(3)])));
    match v {
        Value::Int(n) => assert_eq!(n, 5),
        other => panic!("expected integer, got {:?}", other),
    }
}

#[test]
fn sum_rejects_non_integer_argument() {
    let b = greet_and_sum_bridge();
    let args = vec![Value::Text("x".to_string()), Value::Int(3)];
    let (kind, message) = expect_failure(b.invoke(&invocation("add", args)));
    assert_eq!(kind, ErrorKind::BadArguments);
    assert_eq!(message, "invalid arguments for command: add");
}

#[test]
fn sum_rejects_wrong_argument_count() {
    let b = greet_and_sum_bridge();
    let (kind, _) = expect_failure(b.invoke(&invocation("add", vec![Value::Int(1)])));
    assert_eq!(kind, ErrorKind::BadArguments);
}

#[test]
fn greet_rejects_extra_arguments() {
    let b = greet_bridge();
    let (kind, message) = expect_failure(b.invoke(&invocation("greet", vec![Value::Null])));
    assert_eq!(kind, ErrorKind::BadArguments);
    assert_eq!(message, "invalid arguments for command: greet");
}

#[test]
fn sum_overflow_is_a_handler_failure() {
    let b = greet_and_sum_bridge();
    let args = vec![Value::Int(i64::MAX), Value::Int(1)];
    let (kind, message) = expect_failure(b.invoke(&invocation("add", args)));
    assert_eq!(kind, ErrorKind::HandlerFailed);
    assert_eq!(message, "handler failed for command: add");
}

#[test]
fn sum_negative_overflow_is_a_handler_failure() {
    let b = greet_and_sum_bridge();
    let args = vec![Value::Int(i64::MIN), Value::Int(-1)];
    let (kind, message) = expect_failure(b.invoke(&invocation("add", args)));
    assert_eq!(kind, ErrorKind::HandlerFailed);
    assert_eq!(message, "handler failed for command: add");
}

#[test]
fn duplicate_name_rejected_before_start() {
    let mut b = Bridge::new();
    assert!(b.register("greet".to_string(), Handler::Greet).is_ok());
    assert_eq!(
        b.register("greet".to_string(), Handler::Sum),
        Err(ConfigError::DuplicateName)
    );
    // The rejected call left the registry as it was: "greet" still greets.
    assert!(b.start(Ok(())).is_ok());
    let v = expect_success(b.invoke(&invocation("greet", vec![])));
    match v {
        Value::Text(s) => assert_eq!(s, "Hello from Rust!"),
        other => panic!("expected text, got {:?}", other),
    }
}

#[test]
fn register_after_start_rejected_and_registry_unchanged() {
    let mut b = greet_bridge();
    assert!(b.is_serving());
    assert_eq!(
        b.register("add".to_string(), Handler::Sum),
        Err(ConfigError::AlreadyServing)
    );
    let (kind, _) = expect_failure(b.invoke(&invocation("add", vec![])));
    assert_eq!(kind, ErrorKind::UnknownCommand);
}

#[test]
fn repeated_invocations_are_identical() {
    let b = greet_bridge();
    let first = b.invoke(&invocation("greet", vec![]));
    let second = b.invoke(&invocation("greet", vec![]));
    let v1 = expect_success(first);
    let v2 = expect_success(second);
    match (v1, v2) {
        (Value::Text(s1), Value::Text(s2)) => assert_eq!(s1, s2),
        other => panic!("expected two texts, got {:?}", other),
    }
}

#[test]
fn startup_failure_passes_through_and_keeps_configuring() {
    let mut b = Bridge::new();
    let host: Result<(), StartupError> = Err(StartupError {
        message: "host runtime failed to initialize".to_string(),
    });
    match b.start(host) {
        Ok(()) => panic!("expected startup failure"),
        Err(e) => assert_eq!(e.message, "host runtime failed to initialize"),
    }
    assert!(!b.is_serving());
    // The failed start changed nothing: the bridge still accepts registration.
    assert!(b.register("greet".to_string(), Handler::Greet).is_ok());
}

#[test]
fn error_kind_labels() {
    assert_eq!(ErrorKind::UnknownCommand.label(), "UnknownCommandError");
    assert_eq!(ErrorKind::BadArguments.label(), "ArgumentError");
    assert_eq!(ErrorKind::HandlerFailed.label(), "HandlerError");
}

#[test]
fn response_constructors() {
    match Response::ok(Value::Bool(true)) {
        Response::Success(Value::Bool(v)) => assert!(v),
        other => panic!("expected success, got {:?}", other),
    }
    match Response::error(ErrorKind::HandlerFailed, "boom".to_string()) {
        Response::Failure(kind, message) => {
            assert_eq!(kind, ErrorKind::HandlerFailed);
            assert_eq!(message, "boom");
        }
        other => panic!("expected failure, got {:?}", other),
    }
}
