//! Models of the two resource protocols that the foreign-function layer
//! must follow: the lifecycle of the opaque native handle under shared
//! ownership, and the per-call release of native result buffers.
//!
//! The native handle is owned by one wrapper value and shared through
//! reference counting; the native delete entry point must run exactly once,
//! when the last owner is dropped.  Every successful transcription call
//! hands back one native transcript buffer and one native word array, and
//! each must be passed to its deallocator exactly once, whether or not
//! copying its contents succeeded.  Both protocols are stated and proved
//! here over explicit counters; the unsafe layer mirrors these transitions.

use vstd::prelude::*;

use crate::engine::transcript_decode_error;
use crate::engine::word_decode_error;
use crate::error::LeopardError;
use crate::error::LeopardErrorStatus;
use crate::status::PvStatus;

verus! {

/// The state of one native handle under shared ownership: how many owners
/// are alive and how many times the native delete entry point has run.
pub struct HandleLifecycle {
    pub live_refs: u64,
    pub delete_calls: u64,
}

impl HandleLifecycle {
    /// The handle is deleted exactly once, and only after the last owner is
    /// gone.
    pub open spec fn wf(self) -> bool {
        &&& (self.live_refs > 0 ==> self.delete_calls == 0)
        &&& (self.live_refs == 0 ==> self.delete_calls == 1)
    }

    /// A handle the native initializer has just produced: one owner, no
    /// delete yet.
    pub fn created() -> (r: Self)
        ensures
            r.live_refs == 1,
            r.delete_calls == 0,
            r.wf(),
    {
        Self { live_refs: 1, delete_calls: 0 }
    }

    /// One more owner of the same handle.  Cloning is a count increment;
    /// nothing native happens and the handle is never duplicated.
    pub fn clone_ref(&mut self)
        requires
            old(self).wf(),
            old(self).live_refs > 0,
            old(self).live_refs < u64::MAX,
        ensures
            final(self).live_refs == old(self).live_refs + 1,
            final(self).delete_calls == old(self).delete_calls,
            final(self).wf(),
    {
        self.live_refs = self.live_refs + 1;
    }

    /// The state after one owner is dropped: the count goes down, and the
    /// delete runs if and only if that owner was the last.
    pub open spec fn spec_drop(s: Self) -> Self {
        if s.live_refs == 1 {
            HandleLifecycle { live_refs: 0, delete_calls: (s.delete_calls + 1) as u64 }
        } else {
            HandleLifecycle { live_refs: (s.live_refs - 1) as u64, delete_calls: s.delete_calls }
        }
    }

    /// Drops one owner.  The result says whether the native delete entry
    /// point runs now; it does exactly when this owner was the last one,
    /// from whichever thread drops it.
    pub fn drop_ref(&mut self) -> (deleted: bool)
        requires
            old(self).wf(),
            old(self).live_refs > 0,
        ensures
            *final(self) == Self::spec_drop(*old(self)),
            deleted == (old(self).live_refs == 1),
            final(self).delete_calls == old(self).delete_calls + if deleted {
                1int
            } else {
                0int
            },
            final(self).wf(),
    {
        if self.live_refs == 1 {
            self.live_refs = 0;
            self.delete_calls = self.delete_calls + 1;
            true
        } else {
            self.live_refs = self.live_refs - 1;
            false
        }
    }

    /// A handle shared among `n` owners that has never been deleted.
    pub open spec fn shared(n: nat) -> Self {
        HandleLifecycle { live_refs: n as u64, delete_calls: 0 }
    }

    /// The state after `k` owners of `s` have been dropped, one by one.
    pub open spec fn spec_after_drops(s: Self, k: nat) -> Self
        decreases k,
    {
        if k == 0 {
            s
        } else {
            Self::spec_drop(Self::spec_after_drops(s, (k - 1) as nat))
        }
    }
}

proof fn lemma_drops_before_last(n: nat, k: nat)
    requires
        1 <= n <= u64::MAX,
        k < n,
    ensures
        HandleLifecycle::spec_after_drops(HandleLifecycle::shared(n), k).live_refs == n - k,
        HandleLifecycle::spec_after_drops(HandleLifecycle::shared(n), k).delete_calls == 0,
    decreases k,
{
    if k > 0 {
        lemma_drops_before_last(n, (k - 1) as nat);
    }
}

/// Dropping the `n` owners of one shared handle runs the native delete
/// exactly once: not at any of the first `n - 1` drops, and exactly at the
/// `n`-th.
pub proof fn lemma_delete_runs_exactly_once(n: nat)
    requires
        1 <= n <= u64::MAX,
    ensures
        forall|k: nat|
            k < n ==> (#[trigger] HandleLifecycle::spec_after_drops(
                HandleLifecycle::shared(n),
                k,
            )).delete_calls == 0,
        HandleLifecycle::spec_after_drops(HandleLifecycle::shared(n), n).delete_calls == 1,
        HandleLifecycle::spec_after_drops(HandleLifecycle::shared(n), n).wf(),
{
    assert forall|k: nat|
        k < n implies (#[trigger] HandleLifecycle::spec_after_drops(
        HandleLifecycle::shared(n),
        k,
    )).delete_calls == 0 by {
        lemma_drops_before_last(n, k);
    }
    lemma_drops_before_last(n, (n - 1) as nat);
}

/// The per-call ledger of native result buffers: how many transcript
/// buffers and word arrays the native library has handed out and how many
/// have been passed back to their deallocators.
pub struct BufferLedger {
    pub transcript_allocs: u64,
    pub transcript_frees: u64,
    pub word_allocs: u64,
    pub word_frees: u64,
}

impl BufferLedger {
    /// No buffer is freed more often than it was handed out.
    pub open spec fn wf(self) -> bool {
        &&& self.transcript_frees <= self.transcript_allocs
        &&& self.word_frees <= self.word_allocs
    }

    /// Every buffer handed out has been freed exactly once: no leak, no
    /// double free.
    pub open spec fn balanced(self) -> bool {
        &&& self.transcript_frees == self.transcript_allocs
        &&& self.word_frees == self.word_allocs
    }

    /// A ledger with no buffers outstanding.
    pub fn new() -> (r: Self)
        ensures
            r.transcript_allocs == 0,
            r.transcript_frees == 0,
            r.word_allocs == 0,
            r.word_frees == 0,
            r.balanced(),
            r.wf(),
    {
        Self { transcript_allocs: 0, transcript_frees: 0, word_allocs: 0, word_frees: 0 }
    }

    /// A successful native call handed back one transcript buffer and one
    /// word array.
    pub fn receive_result(&mut self)
        requires
            old(self).wf(),
            old(self).transcript_allocs < u64::MAX,
            old(self).word_allocs < u64::MAX,
        ensures
            final(self).transcript_allocs == old(self).transcript_allocs + 1,
            final(self).word_allocs == old(self).word_allocs + 1,
            final(self).transcript_frees == old(self).transcript_frees,
            final(self).word_frees == old(self).word_frees,
            final(self).wf(),
    {
        self.transcript_allocs = self.transcript_allocs + 1;
        self.word_allocs = self.word_allocs + 1;
    }

    /// The transcript buffer is passed to its dedicated deallocator.
    pub fn free_transcript(&mut self)
        requires
            old(self).wf(),
            old(self).transcript_frees < old(self).transcript_allocs,
        ensures
            final(self).transcript_frees == old(self).transcript_frees + 1,
            final(self).transcript_allocs == old(self).transcript_allocs,
            final(self).word_allocs == old(self).word_allocs,
            final(self).word_frees == old(self).word_frees,
            final(self).wf(),
    {
        self.transcript_frees = self.transcript_frees + 1;
    }

    /// The word array is passed to its dedicated deallocator.
    pub fn free_words(&mut self)
        requires
            old(self).wf(),
            old(self).word_frees < old(self).word_allocs,
        ensures
            final(self).word_frees == old(self).word_frees + 1,
            final(self).word_allocs == old(self).word_allocs,
            final(self).transcript_allocs == old(self).transcript_allocs,
            final(self).transcript_frees == old(self).transcript_frees,
            final(self).wf(),
    {
        self.word_frees = self.word_frees + 1;
    }
}

/// Runs the release half of the marshaling protocol after a successful
/// native call: both buffers recorded by `receive_result` are released,
/// unconditionally and exactly once each, and only then is the call's
/// outcome decided from the copy results.  A failed copy of either string
/// is a runtime error distinct from any native status failure; the
/// transcript's failure takes precedence.
pub fn marshal_release(
    ledger: &mut BufferLedger,
    transcript_ok: bool,
    words_ok: bool,
) -> (r: Result<(), LeopardError>)
    requires
        old(ledger).wf(),
        old(ledger).transcript_frees < old(ledger).transcript_allocs,
        old(ledger).word_frees < old(ledger).word_allocs,
    ensures
        final(ledger).transcript_frees == old(ledger).transcript_frees + 1,
        final(ledger).word_frees == old(ledger).word_frees + 1,
        final(ledger).transcript_allocs == old(ledger).transcript_allocs,
        final(ledger).word_allocs == old(ledger).word_allocs,
        final(ledger).wf(),
        r is Ok <==> transcript_ok && words_ok,
        !transcript_ok ==> (r matches Err(e) && e.status == LeopardErrorStatus::LibraryError(
            PvStatus::RUNTIME_ERROR,
        ) && e.message@ == "Failed to convert transcript string"@ && e.message_stack@.len() == 0),
        transcript_ok && !words_ok ==> (r matches Err(e) && e.status
            == LeopardErrorStatus::LibraryError(PvStatus::RUNTIME_ERROR) && e.message@
            == "Failed to convert metadata word string"@ && e.message_stack@.len() == 0),
{
    ledger.free_transcript();
    ledger.free_words();
    if !transcript_ok {
        Err(transcript_decode_error())
    } else if !words_ok {
        Err(word_decode_error())
    } else {
        Ok(())
    }
}

/// Round trip: starting from a ledger with nothing outstanding, one
/// successful call followed by the marshaling protocol leaves the ledger
/// balanced again — the transcript buffer and the word array were each
/// freed exactly once.
pub proof fn lemma_buffers_released_exactly_once(
    l0: BufferLedger,
    l1: BufferLedger,
    l2: BufferLedger,
)
    requires
        l0.wf(),
        l0.balanced(),
        l0.transcript_allocs < u64::MAX,
        l0.word_allocs < u64::MAX,
        // what receive_result ensures of l1
        l1.transcript_allocs == l0.transcript_allocs + 1,
        l1.word_allocs == l0.word_allocs + 1,
        l1.transcript_frees == l0.transcript_frees,
        l1.word_frees == l0.word_frees,
        // what marshal_release ensures of l2
        l2.transcript_frees == l1.transcript_frees + 1,
        l2.word_frees == l1.word_frees + 1,
        l2.transcript_allocs == l1.transcript_allocs,
        l2.word_allocs == l1.word_allocs,
    ensures
        l2.balanced(),
        l2.transcript_frees == l0.transcript_frees + 1,
        l2.word_frees == l0.word_frees + 1,
{
}

} // verus!
