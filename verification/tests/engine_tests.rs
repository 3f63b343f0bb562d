use leopard::engine::check_fn_call_status;
use leopard::engine::check_pcm_frame;
use leopard::engine::EngineInfo;
use leopard::LeopardErrorStatus;
use leopard::PvStatus;

#[test]
fn engine_info_queries_are_stable() {
    let info = EngineInfo::new(16000, "2.0.0".to_string());
    assert_eq!(info.sample_rate(), 16000);
    assert_eq!(info.sample_rate(), 16000);
    assert_eq!(info.version(), "2.0.0");
    assert_eq!(info.version(), "2.0.0");
}

#[test]
fn empty_pcm_is_rejected_before_any_native_call() {
    let pcm: Vec<i16> = Vec::new();
    let e = check_pcm_frame(&pcm).unwrap_err();
    assert_eq!(e.status, LeopardErrorStatus::FrameLengthError);
    assert_eq!(e.message, "Audio data must not be empty");
    assert!(e.message_stack.is_empty());
}

#[test]
fn non_empty_pcm_passes_the_gate() {
    let pcm: Vec<i16> = vec![0, 1, -1, 342];
    assert!(check_pcm_frame(&pcm).is_ok());
}

#[test]
fn success_status_needs_no_error() {
    let r = check_fn_call_status(PvStatus::SUCCESS, "pv_leopard_process", Ok(Vec::new()));
    assert!(r.is_ok());
}

#[test]
fn failed_call_carries_status_name_and_stack() {
    let stack = vec!["root cause".to_string(), "surface symptom".to_string()];
    let e = check_fn_call_status(
        PvStatus::ACTIVATION_REFUSED,
        "pv_leopard_init",
        Ok(stack.clone()),
    )
    .unwrap_err();
    assert_eq!(
        e.status,
        LeopardErrorStatus::LibraryError(PvStatus::ACTIVATION_REFUSED)
    );
    assert_eq!(e.message, "'pv_leopard_init' failed");
    assert_eq!(e.message_stack, stack);
}

#[test]
fn failed_stack_retrieval_masks_the_original_cause() {
    let e = check_fn_call_status(
        PvStatus::KEY_ERROR,
        "pv_leopard_init",
        Err(PvStatus::OUT_OF_MEMORY),
    )
    .unwrap_err();
    assert_eq!(
        e.status,
        LeopardErrorStatus::LibraryError(PvStatus::OUT_OF_MEMORY)
    );
    assert_eq!(e.message, "Unable to get Leopard error state.");
    assert!(e.message_stack.is_empty());
}

#[test]
fn repeated_failures_report_identical_diagnostics() {
    // Two consecutive failed constructions that saw the same native status
    // and the same native diagnostics yield stacks of equal length and
    // identical content, element by element.
    let native_stack = vec!["invalid AccessKey".to_string(), "activation refused".to_string()];
    let e1 = check_fn_call_status(
        PvStatus::ACTIVATION_REFUSED,
        "pv_leopard_init",
        Ok(native_stack.clone()),
    )
    .unwrap_err();
    let e2 = check_fn_call_status(
        PvStatus::ACTIVATION_REFUSED,
        "pv_leopard_init",
        Ok(native_stack.clone()),
    )
    .unwrap_err();
    assert_eq!(e1.status, e2.status);
    assert_eq!(e1.message, e2.message);
    assert_eq!(e1.message_stack.len(), e2.message_stack.len());
    for i in 0..e1.message_stack.len() {
        assert_eq!(e1.message_stack[i], e2.message_stack[i]);
    }
}
