use leopard::LeopardError;
use leopard::LeopardErrorStatus;
use leopard::PvStatus;

#[test]
fn new_sets_fields() {
    let e = LeopardError::new(LeopardErrorStatus::ArgumentError, "AccessKey is empty");
    assert_eq!(e.status, LeopardErrorStatus::ArgumentError);
    assert_eq!(e.message, "AccessKey is empty");
    assert!(e.message_stack.is_empty());
}

#[test]
fn new_with_stack_keeps_stack() {
    let stack = vec!["outer cause".to_string(), "inner cause".to_string()];
    let e = LeopardError::new_with_stack(
        LeopardErrorStatus::LibraryError(PvStatus::ACTIVATION_ERROR),
        "'pv_leopard_init' failed",
        stack.clone(),
    );
    assert_eq!(
        e.status,
        LeopardErrorStatus::LibraryError(PvStatus::ACTIVATION_ERROR)
    );
    assert_eq!(e.message, "'pv_leopard_init' failed");
    assert_eq!(e.message_stack, stack);
}

#[test]
fn display_without_stack() {
    let e = LeopardError::new(LeopardErrorStatus::ArgumentError, "Unable to create Leopard");
    assert_eq!(
        e.to_display_string(),
        "Unable to create Leopard with status 'ArgumentError'"
    );
}

#[test]
fn display_with_stack() {
    let e = LeopardError::new_with_stack(
        LeopardErrorStatus::LibraryError(PvStatus::ACTIVATION_ERROR),
        "'pv_leopard_init' failed",
        vec!["first".to_string(), "second".to_string()],
    );
    assert_eq!(
        e.to_display_string(),
        "'pv_leopard_init' failed with status 'LibraryError(ACTIVATION_ERROR)':  [0] first\n  [1] second\n"
    );
}

#[test]
fn display_with_two_digit_indices() {
    let stack: Vec<String> = (0..12).map(|i| format!("m{}", i)).collect();
    let e = LeopardError::new_with_stack(
        LeopardErrorStatus::FrameLengthError,
        "failed",
        stack,
    );
    let rendered = e.to_display_string();
    assert!(rendered.starts_with("failed with status 'FrameLengthError':"));
    assert!(rendered.contains("  [9] m9\n"));
    assert!(rendered.contains("  [10] m10\n"));
    assert!(rendered.contains("  [11] m11\n"));
}

#[test]
fn status_names() {
    assert_eq!(LeopardErrorStatus::LibraryLoadError.name(), "LibraryLoadError");
    assert_eq!(LeopardErrorStatus::FrameLengthError.name(), "FrameLengthError");
    assert_eq!(LeopardErrorStatus::ArgumentError.name(), "ArgumentError");
    assert_eq!(
        LeopardErrorStatus::LibraryError(PvStatus::OUT_OF_MEMORY).name(),
        "LibraryError(OUT_OF_MEMORY)"
    );
}

#[test]
fn pv_status_codes_round_trip() {
    let all = [
        PvStatus::SUCCESS,
        PvStatus::OUT_OF_MEMORY,
        PvStatus::IO_ERROR,
        PvStatus::INVALID_ARGUMENT,
        PvStatus::STOP_ITERATION,
        PvStatus::KEY_ERROR,
        PvStatus::INVALID_STATE,
        PvStatus::RUNTIME_ERROR,
        PvStatus::ACTIVATION_ERROR,
        PvStatus::ACTIVATION_LIMIT_REACHED,
        PvStatus::ACTIVATION_THROTTLED,
        PvStatus::ACTIVATION_REFUSED,
    ];
    for (expected, status) in all.iter().enumerate() {
        let code = status.code();
        assert_eq!(code, expected as i32);
        assert_eq!(PvStatus::from_code(code), Some(status.clone()));
    }
}

#[test]
fn pv_status_from_code_rejects_unknown() {
    assert_eq!(PvStatus::from_code(-1), None);
    assert_eq!(PvStatus::from_code(12), None);
    assert_eq!(PvStatus::from_code(i32::MAX), None);
}
