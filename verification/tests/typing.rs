use typist::InjectError;
use typist::Injector;
use typist::type_text;

// An empty string asks for no keystrokes: the command succeeds without
// touching the platform, whether or not an input subsystem is reachable.
#[test]
fn empty_text_succeeds_without_a_handle() {
    assert!(type_text("").is_ok());
}

#[test]
fn empty_text_succeeds_twice() {
    assert!(type_text("").is_ok());
    assert!(type_text("").is_ok());
}

// When no input subsystem is reachable, acquiring a handle must report the
// failure rather than stay silent; when one is reachable, a fresh handle is
// handed out. Either way, nothing panics.
#[test]
fn handle_initialization_failure_is_reported() {
    match Injector::new() {
        Ok(_) => {}
        Err(e) => {
            assert_eq!(e, InjectError::HandleInit);
            assert_eq!(
                e.message(),
                "the input-injection handle could not be initialized"
            );
        }
    }
}

// The command either succeeds or reports the step that failed; it never
// aborts. On a machine without an accessible display the reported error is
// the initialization failure.
#[test]
fn nonempty_text_reports_any_fault() {
    match type_text("hello") {
        Ok(()) => {}
        Err(e) => {
            assert!(e == InjectError::HandleInit || e == InjectError::Injection);
        }
    }
}

// Two commands in sequence: each call submits its own text wholly before the
// next call starts, so the platform sees "ab" and then "cd". Here each call
// either goes through or reports its fault; neither aborts or interferes
// with the other.
#[test]
fn two_commands_in_sequence() {
    let first = type_text("ab");
    let second = type_text("cd");
    for r in [first, second] {
        match r {
            Ok(()) => {}
            Err(e) => {
                assert!(e == InjectError::HandleInit || e == InjectError::Injection);
            }
        }
    }
}

// One handle used for two injections in a row, where a handle can be had.
#[test]
fn one_handle_two_injections() {
    if let Ok(mut injector) = Injector::new() {
        let first = injector.inject("ab");
        let second = injector.inject("cd");
        for r in [first, second] {
            match r {
                Ok(()) => {}
                Err(e) => assert_eq!(e, InjectError::Injection),
            }
        }
    }
}

// An empty text submitted over an existing handle cannot fail.
#[test]
fn empty_injection_on_a_handle_succeeds() {
    if let Ok(mut injector) = Injector::new() {
        assert!(injector.inject("").is_ok());
    }
}

#[test]
fn error_messages_name_the_failed_step() {
    assert_eq!(
        InjectError::HandleInit.message(),
        "the input-injection handle could not be initialized"
    );
    assert_eq!(
        InjectError::Injection.message(),
        "injecting the text as keystrokes failed"
    );
}

#[test]
fn error_variants_are_distinct() {
    assert_ne!(InjectError::HandleInit, InjectError::Injection);
    assert_ne!(
        InjectError::HandleInit.message(),
        InjectError::Injection.message()
    );
}
