//! The lifecycle of native string handles: buffers that the runtime's locale
//! decode primitive allocates and that must be released exactly once through
//! the runtime's own deallocator.
use vstd::prelude::*;
use vstd::string::StringSliceAdditionalSpecFns;

use crate::error::BridgeError;
use crate::host::{holds_terminator, terminated, terminated_buffer};

verus! {

/// The accounting state of the handles built through one ledger.
pub ghost struct LedgerState {
    /// Buffers handed out by the runtime so far.
    pub allocations: nat,
    /// Buffers released through the runtime's deallocator so far.
    pub releases: nat,
    /// Identifiers of the handles that are alive.
    pub live: Set<nat>,
}

/// The state after the runtime allocated one more buffer: the new handle is
/// identified by the number of allocations before it.
pub open spec fn allocated(s: LedgerState) -> LedgerState {
    LedgerState {
        allocations: s.allocations + 1,
        releases: s.releases,
        live: s.live.insert(s.allocations),
    }
}

/// The state after the handle `id` released its buffer.
pub open spec fn released(s: LedgerState, id: nat) -> LedgerState {
    LedgerState { allocations: s.allocations, releases: s.releases + 1, live: s.live.remove(id) }
}

/// A state that a ledger can be in: every live handle was allocated, and the
/// buffers not yet released are exactly those of the live handles.
pub open spec fn consistent(s: LedgerState) -> bool {
    &&& s.live.finite()
    &&& forall|id: nat| #[trigger] s.live.contains(id) ==> id < s.allocations
    &&& s.releases + s.live.len() == s.allocations
}

/// The state after `n` handles were each constructed and then destroyed.
pub open spec fn cycles(s: LedgerState, n: nat) -> LedgerState
    decreases n,
{
    if n == 0 {
        s
    } else {
        let t = allocated(cycles(s, (n - 1) as nat));
        released(t, cycles(s, (n - 1) as nat).allocations)
    }
}

/// Constructing and destroying `n` handles in sequence causes exactly `n`
/// allocations and `n` matching releases, and leaves the same handles alive.
pub proof fn lemma_cycles_balance(s: LedgerState, n: nat)
    requires
        consistent(s),
    ensures
        cycles(s, n).allocations == s.allocations + n,
        cycles(s, n).releases == s.releases + n,
        cycles(s, n).live == s.live,
        consistent(cycles(s, n)),
    decreases n,
{
    if n > 0 {
        lemma_cycles_balance(s, (n - 1) as nat);
        let p = cycles(s, (n - 1) as nat);
        let a = p.allocations;
        assert(!p.live.contains(a));
        assert(p.live.insert(a).remove(a) =~= p.live);
    }
}

/// An owning handle on one runtime-allocated wide-character buffer. It cannot
/// be copied: giving it back to its ledger consumes it, so its buffer is
/// released at most once.
#[derive(Debug)]
pub struct NativeStringHandle {
    id: u64,
}

impl NativeStringHandle {
    /// The identifier of the handle within its ledger.
    pub closed spec fn id_spec(&self) -> nat {
        self.id as nat
    }
}

/// Counts the buffers that handles own, from allocation to release.
pub struct HandleLedger {
    allocations: u64,
    releases: u64,
    live: Ghost<Set<nat>>,
}

impl HandleLedger {
    /// The accounting state of the ledger.
    pub closed spec fn view(&self) -> LedgerState {
        LedgerState {
            allocations: self.allocations as nat,
            releases: self.releases as nat,
            live: self.live@,
        }
    }

    /// The ledger's counters agree with its live handles.
    pub open spec fn wf(&self) -> bool {
        consistent(self@)
    }

    /// A ledger on which nothing was allocated yet.
    pub fn new() -> (r: Self)
        ensures
            r.wf(),
            r@ == (LedgerState { allocations: 0, releases: 0, live: Set::empty() }),
    {
        HandleLedger { allocations: 0, releases: 0, live: Ghost(Set::empty()) }
    }

    /// Buffers allocated so far.
    pub fn allocations(&self) -> (r: u64)
        ensures
            r == self@.allocations,
    {
        self.allocations
    }

    /// Buffers released so far.
    pub fn releases(&self) -> (r: u64)
        ensures
            r == self@.releases,
    {
        self.releases
    }

    /// The terminator-delimited buffer handed to the runtime's locale decode
    /// primitive for `text`. It fails with `InvalidHostString` on a text that
    /// holds a terminator byte; the ledger is left as it was either way, since
    /// no buffer is allocated before the decode call.
    pub fn prepare(&self, text: &str) -> (r: Result<Vec<u8>, BridgeError>)
        ensures
            holds_terminator(text.spec_bytes()) <==> r is Err,
            r is Err ==> r->Err_0 == BridgeError::InvalidHostString,
            r is Ok ==> r->Ok_0@ == terminated(text.spec_bytes()),
    {
        terminated_buffer(text.as_bytes())
    }

    /// Records the outcome of the runtime's locale decode call. A null result
    /// is a `RuntimeDecodeFailure` and allocates nothing; otherwise the new
    /// buffer is counted and owned by the returned handle.
    pub fn accept_decoded(&mut self, result_is_null: bool) -> (r: Result<
        NativeStringHandle,
        BridgeError,
    >)
        requires
            old(self).wf(),
            old(self)@.allocations < u64::MAX,
        ensures
            final(self).wf(),
            result_is_null <==> r is Err,
            r is Err ==> r->Err_0 == BridgeError::RuntimeDecodeFailure && final(self)@ == old(
                self,
            )@,
            r is Ok ==> final(self)@ == allocated(old(self)@) && r->Ok_0.id_spec()
                == old(self)@.allocations,
    {
        if result_is_null {
            return Err(BridgeError::RuntimeDecodeFailure);
        }
        let id = self.allocations;
        proof {
            assert(!self.live@.contains(id as nat));
        }
        self.allocations = self.allocations + 1;
        self.live = Ghost(self.live@.insert(id as nat));
        Ok(NativeStringHandle { id })
    }

    /// Destroys a live handle: its buffer is released once, through the
    /// runtime's deallocator, and the handle is gone.
    pub fn release(&mut self, h: NativeStringHandle)
        requires
            old(self).wf(),
            old(self)@.live.contains(h.id_spec()),
        ensures
            final(self).wf(),
            final(self)@ == released(old(self)@, h.id_spec()),
    {
        self.releases = self.releases + 1;
        self.live = Ghost(self.live@.remove(h.id as nat));
    }
}

} // verus!
