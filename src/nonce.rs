use vstd::prelude::*;

verus! {

/// Why no nonce could be reserved.
#[derive(Clone, Copy, Debug, PartialEq, Eq, Structural)]
pub enum ContextError {
    /// The chain id and the account's transaction count have not been obtained from the node.
    ContextUnavailable,
    /// Every nonce a `u64` can hold has been handed out.
    NoncesExhausted,
}

/// Chain id and nonce bookkeeping for the one account of a relayer.
///
/// Reservations are handed out in strictly increasing order, starting from the
/// account's confirmed transaction count; a released nonce is never handed out again.
#[derive(Debug)]
pub struct NonceTracker {
    chain: Option<u64>,
    next: u64,
    in_flight: Vec<u64>,
}

impl NonceTracker {
    /// The cached chain id, if the node has been asked for it.
    pub closed spec fn chain_spec(&self) -> Option<u64> {
        self.chain
    }

    /// The nonce that the next reservation hands out.
    pub closed spec fn next_spec(&self) -> nat {
        self.next as nat
    }

    /// The nonces that are reserved and not released.
    pub closed spec fn reserved_spec(&self) -> Set<u64> {
        self.in_flight@.to_set()
    }

    pub closed spec fn wf(&self) -> bool {
        forall|i: int| 0 <= i < self.in_flight@.len() ==> #[trigger] self.in_flight@[i] < self.next
    }

    /// Every reservation held is below the next one to be handed out.
    pub proof fn lemma_reserved_below_next(&self)
        requires
            self.wf(),
        ensures
            forall|n: u64| self.reserved_spec().contains(n) ==> (n as nat) < self.next_spec(),
    {
        assert forall|n: u64| self.reserved_spec().contains(n) implies (n as nat) < self.next_spec() by {
            let i = choose|i: int| 0 <= i < self.in_flight@.len() && self.in_flight@[i] == n;
            assert(self.in_flight@[i] < self.next);
        }
    }

    /// A tracker that knows nothing of the chain yet.
    pub fn new() -> (r: NonceTracker)
        ensures
            r.wf(),
            r.chain_spec() is None,
            r.next_spec() == 0,
            r.reserved_spec() == Set::<u64>::empty(),
    {
        let r = NonceTracker { chain: None, next: 0, in_flight: Vec::new() };
        assert(r.in_flight@.to_set() =~= Set::<u64>::empty());
        r
    }

    /// The cached chain id.
    pub fn chain_id(&self) -> (r: Option<u64>)
        ensures
            r == self.chain_spec(),
    {
        self.chain
    }

    /// The nonce that the next reservation hands out.
    pub fn next_nonce(&self) -> (r: u64)
        ensures
            r as nat == self.next_spec(),
    {
        self.next
    }

    /// Whether `n` is reserved and not released.
    pub fn is_reserved(&self, n: u64) -> (r: bool)
        ensures
            r == self.reserved_spec().contains(n),
    {
        let mut i: usize = 0;
        while i < self.in_flight.len()
            invariant
                i <= self.in_flight@.len(),
                forall|j: int| 0 <= j < i ==> self.in_flight@[j] != n,
            decreases self.in_flight@.len() - i,
        {
            if self.in_flight[i] == n {
                assert(self.in_flight@.contains(n));
                return true;
            }
            i = i + 1;
        }
        proof {
            if self.in_flight@.contains(n) {
                let j = choose|j: int| 0 <= j < self.in_flight@.len() && self.in_flight@[j] == n;
                assert(self.in_flight@[j] != n);
            }
        }
        false
    }

    /// Records what the node reports: the chain id, and the account's confirmed
    /// transaction count, below which no nonce is handed out any more.
    pub fn sync(&mut self, chain_id: u64, confirmed_count: u64)
        requires
            old(self).wf(),
        ensures
            final(self).wf(),
            final(self).chain_spec() == Some(chain_id),
            final(self).next_spec() == next_after(old(self).next_spec(), TrackerOp::Sync { count: confirmed_count }),
            final(self).next_spec() == if confirmed_count as nat > old(self).next_spec() {
                confirmed_count as nat
            } else {
                old(self).next_spec()
            },
            final(self).reserved_spec() == old(self).reserved_spec(),
    {
        self.chain = Some(chain_id);
        if confirmed_count > self.next {
            self.next = confirmed_count;
        }
    }

    /// Makes sure that no nonce below `floor` is handed out.
    pub fn advance_to(&mut self, floor: u64)
        requires
            old(self).wf(),
        ensures
            final(self).wf(),
            final(self).chain_spec() == old(self).chain_spec(),
            final(self).next_spec() == next_after(old(self).next_spec(), TrackerOp::Advance { floor }),
            final(self).next_spec() == if floor as nat > old(self).next_spec() {
                floor as nat
            } else {
                old(self).next_spec()
            },
            final(self).reserved_spec() == old(self).reserved_spec(),
    {
        if floor > self.next {
            self.next = floor;
        }
    }

    /// Reserves the next nonce for a transaction of the account.
    pub fn reserve_nonce(&mut self) -> (r: Result<u64, ContextError>)
        requires
            old(self).wf(),
        ensures
            final(self).wf(),
            final(self).chain_spec() == old(self).chain_spec(),
            old(self).chain_spec() is None ==> r == Err::<u64, ContextError>(
                ContextError::ContextUnavailable,
            ),
            old(self).chain_spec() is Some && old(self).next_spec() == u64::MAX ==> r == Err::<
                u64,
                ContextError,
            >(ContextError::NoncesExhausted),
            r is Ok ==> old(self).chain_spec() is Some && old(self).next_spec() < u64::MAX,
            r is Ok ==> final(self).next_spec() == next_after(old(self).next_spec(), TrackerOp::Reserve),
            r is Err ==> final(self).next_spec() == old(self).next_spec()
                && final(self).reserved_spec() == old(self).reserved_spec(),
            old(self).chain_spec() is Some && old(self).next_spec() < u64::MAX ==> {
                &&& r is Ok
                &&& r->Ok_0 as nat == old(self).next_spec()
                &&& !old(self).reserved_spec().contains(r->Ok_0)
                &&& final(self).next_spec() == r->Ok_0 as nat + 1
                &&& final(self).reserved_spec() == old(self).reserved_spec().insert(r->Ok_0)
            },
    {
        if self.chain.is_none() {
            return Err(ContextError::ContextUnavailable);
        }
        if self.next == u64::MAX {
            return Err(ContextError::NoncesExhausted);
        }
        let n = self.next;
        proof {
            self.lemma_reserved_below_next();
        }
        self.in_flight.push(n);
        self.next = n + 1;
        proof {
            assert(self.in_flight@ == old(self).in_flight@.push(n));
            assert(self.in_flight@.to_set() =~= old(self).in_flight@.to_set().insert(n)) by {
                assert forall|x: u64| self.in_flight@.to_set().contains(x) implies old(self).in_flight@.to_set().insert(n).contains(x) by {
                    let k = choose|k: int| 0 <= k < self.in_flight@.len() && self.in_flight@[k] == x;
                    if k < old(self).in_flight@.len() {
                        assert(old(self).in_flight@[k] == x);
                    }
                }
                assert forall|x: u64| old(self).in_flight@.to_set().insert(n).contains(x) implies self.in_flight@.to_set().contains(x) by {
                    if x == n {
                        assert(self.in_flight@[old(self).in_flight@.len() as int] == n);
                    } else {
                        let k = choose|k: int| 0 <= k < old(self).in_flight@.len() && old(self).in_flight@[k] == x;
                        assert(self.in_flight@[k] == x);
                    }
                }
            }
            assert forall|i: int| 0 <= i < self.in_flight@.len() implies #[trigger] self.in_flight@[i]
                < self.next by {
                if i < old(self).in_flight@.len() {
                    assert(old(self).in_flight@[i] < old(self).next);
                }
            }
        }
        Ok(n)
    }

    /// Gives up the reservation of `n` after its transaction was refused before the
    /// node accepted it. The nonce is not handed out again.
    pub fn release_on_failure(&mut self, n: u64)
        requires
            old(self).wf(),
        ensures
            final(self).wf(),
            final(self).chain_spec() == old(self).chain_spec(),
            final(self).next_spec() == next_after(old(self).next_spec(), TrackerOp::Release),
            final(self).reserved_spec() == old(self).reserved_spec().remove(n),
    {
        let mut kept: Vec<u64> = Vec::new();
        let mut i: usize = 0;
        while i < self.in_flight.len()
            invariant
                i <= self.in_flight@.len(),
                forall|j: int| 0 <= j < kept@.len() ==> #[trigger] kept@[j] != n && self.in_flight@.contains(kept@[j]),
                forall|j: int| 0 <= j < i && self.in_flight@[j] != n ==> kept@.contains(#[trigger] self.in_flight@[j]),
            decreases self.in_flight@.len() - i,
        {
            let x = self.in_flight[i];
            if x != n {
                let ghost prev = kept@;
                kept.push(x);
                proof {
                    assert(kept@[kept@.len() - 1] == x);
                    assert forall|j: int| 0 <= j < i + 1 && self.in_flight@[j] != n implies kept@.contains(#[trigger] self.in_flight@[j]) by {
                        if j < i {
                            assert(prev.contains(self.in_flight@[j]));
                            let k = choose|k: int| 0 <= k < prev.len() && prev[k] == self.in_flight@[j];
                            assert(kept@[k] == prev[k]);
                        } else {
                            assert(kept@[kept@.len() - 1] == self.in_flight@[j]);
                        }
                    }
                }
            }
            i = i + 1;
        }
        let ghost old_flight = self.in_flight@;
        self.in_flight = kept;
        proof {
            assert(self.in_flight@.to_set() =~= old_flight.to_set().remove(n)) by {
                assert forall|x: u64| self.in_flight@.to_set().contains(x) implies old_flight.to_set().remove(n).contains(x) by {
                    let k = choose|k: int| 0 <= k < self.in_flight@.len() && self.in_flight@[k] == x;
                    assert(self.in_flight@[k] != n);
                }
                assert forall|x: u64| old_flight.to_set().remove(n).contains(x) implies self.in_flight@.to_set().contains(x) by {
                    let k = choose|k: int| 0 <= k < old_flight.len() && old_flight[k] == x;
                    assert(old_flight[k] != n);
                }
            }
            assert forall|i: int| 0 <= i < self.in_flight@.len() implies #[trigger] self.in_flight@[i] < self.next by {
                let x = self.in_flight@[i];
                assert(old_flight.contains(x));
                let k = choose|k: int| 0 <= k < old_flight.len() && old_flight[k] == x;
                assert(old_flight[k] < self.next);
            }
        }
    }
}

/// One call on a tracker: `sync`, `advance_to`, a successful `reserve_nonce`, or
/// `release_on_failure`.
pub ghost enum TrackerOp {
    Sync { count: u64 },
    Advance { floor: u64 },
    Reserve,
    Release,
}

/// The next nonce after `op`, as the methods' contracts state it.
pub open spec fn next_after(next: nat, op: TrackerOp) -> nat {
    match op {
        TrackerOp::Sync { count } => if count as nat > next { count as nat } else { next },
        TrackerOp::Advance { floor } => if floor as nat > next { floor as nat } else { next },
        TrackerOp::Reserve => next + 1,
        TrackerOp::Release => next,
    }
}

/// The nonces that the reservations among `ops` hand out, in order, from a tracker
/// whose next nonce is `next`.
pub open spec fn handed_out(next: nat, ops: Seq<TrackerOp>) -> Seq<nat>
    decreases ops.len(),
{
    if ops.len() == 0 {
        seq![]
    } else {
        let rest = handed_out(next_after(next, ops[0]), ops.drop_first());
        if ops[0] is Reserve {
            seq![next].add(rest)
        } else {
            rest
        }
    }
}

proof fn lemma_handed_out_from(next: nat, ops: Seq<TrackerOp>)
    ensures
        forall|i: int| 0 <= i < handed_out(next, ops).len() ==> #[trigger] handed_out(next, ops)[i] >= next,
    decreases ops.len(),
{
    if ops.len() > 0 {
        let n2 = next_after(next, ops[0]);
        let rest = handed_out(n2, ops.drop_first());
        lemma_handed_out_from(n2, ops.drop_first());
        let h = handed_out(next, ops);
        assert forall|i: int| 0 <= i < h.len() implies #[trigger] h[i] >= next by {
            if ops[0] is Reserve {
                assert(h == seq![next].add(rest));
                if i > 0 {
                    assert(h[i] == rest[i - 1]);
                }
            } else {
                assert(h[i] == rest[i]);
            }
        }
    }
}

/// Reservations are pairwise distinct and strictly increasing: whatever calls are made
/// on a tracker between them (syncs, advances, releases), the nonces that its
/// reservations hand out, in order, strictly increase.
pub proof fn lemma_reservations_increase(next: nat, ops: Seq<TrackerOp>)
    ensures
        forall|i: int, j: int|
            0 <= i < j < handed_out(next, ops).len() ==> #[trigger] handed_out(next, ops)[i]
                < #[trigger] handed_out(next, ops)[j],
    decreases ops.len(),
{
    if ops.len() > 0 {
        let n2 = next_after(next, ops[0]);
        let rest = handed_out(n2, ops.drop_first());
        lemma_reservations_increase(n2, ops.drop_first());
        lemma_handed_out_from(n2, ops.drop_first());
        if ops[0] is Reserve {
            let h = handed_out(next, ops);
            assert(h == seq![next].add(rest));
            assert forall|i: int, j: int| 0 <= i < j < h.len() implies #[trigger] h[i] < #[trigger] h[j] by {
                if i == 0 {
                    assert(h[j] == rest[j - 1]);
                } else {
                    assert(h[i] == rest[i - 1] && h[j] == rest[j - 1]);
                }
            }
        }
    }
}

} // verus!
