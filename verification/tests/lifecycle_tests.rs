use leopard::lifecycle::marshal_release;
use leopard::lifecycle::BufferLedger;
use leopard::lifecycle::HandleLifecycle;
use leopard::LeopardErrorStatus;
use leopard::PvStatus;

#[test]
fn delete_runs_exactly_once_after_the_last_drop() {
    // One handle shared by five owners: four drops delete nothing, the
    // fifth and last runs the native delete, exactly once.
    let mut handle = HandleLifecycle::created();
    for _ in 0..4 {
        handle.clone_ref();
    }
    assert_eq!(handle.live_refs, 5);
    for _ in 0..4 {
        let deleted = handle.drop_ref();
        assert!(!deleted);
        assert_eq!(handle.delete_calls, 0);
    }
    let deleted = handle.drop_ref();
    assert!(deleted);
    assert_eq!(handle.live_refs, 0);
    assert_eq!(handle.delete_calls, 1);
}

#[test]
fn single_owner_deletes_at_its_own_drop() {
    let mut handle = HandleLifecycle::created();
    assert!(handle.drop_ref());
    assert_eq!(handle.delete_calls, 1);
}

#[test]
fn successful_call_frees_both_buffers_exactly_once() {
    let mut ledger = BufferLedger::new();
    ledger.receive_result();
    let r = marshal_release(&mut ledger, true, true);
    assert!(r.is_ok());
    assert_eq!(ledger.transcript_allocs, 1);
    assert_eq!(ledger.transcript_frees, 1);
    assert_eq!(ledger.word_allocs, 1);
    assert_eq!(ledger.word_frees, 1);
}

#[test]
fn failed_transcript_copy_still_frees_both_buffers() {
    let mut ledger = BufferLedger::new();
    ledger.receive_result();
    let e = marshal_release(&mut ledger, false, true).unwrap_err();
    assert_eq!(
        e.status,
        LeopardErrorStatus::LibraryError(PvStatus::RUNTIME_ERROR)
    );
    assert_eq!(e.message, "Failed to convert transcript string");
    assert_eq!(ledger.transcript_frees, 1);
    assert_eq!(ledger.word_frees, 1);
}

#[test]
fn failed_word_copy_still_frees_both_buffers() {
    let mut ledger = BufferLedger::new();
    ledger.receive_result();
    let e = marshal_release(&mut ledger, true, false).unwrap_err();
    assert_eq!(
        e.status,
        LeopardErrorStatus::LibraryError(PvStatus::RUNTIME_ERROR)
    );
    assert_eq!(e.message, "Failed to convert metadata word string");
    assert_eq!(ledger.transcript_frees, 1);
    assert_eq!(ledger.word_frees, 1);
}

#[test]
fn repeated_calls_keep_the_ledger_balanced() {
    let mut ledger = BufferLedger::new();
    for _ in 0..3 {
        ledger.receive_result();
        let r = marshal_release(&mut ledger, true, true);
        assert!(r.is_ok());
    }
    assert_eq!(ledger.transcript_allocs, 3);
    assert_eq!(ledger.transcript_frees, 3);
    assert_eq!(ledger.word_allocs, 3);
    assert_eq!(ledger.word_frees, 3);
}
