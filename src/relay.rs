use vstd::prelude::*;

use crate::abi::{call_data, encode_call, keccak_of, signature_of, values_of, EncodingError, MethodDescriptor, Token};
use crate::nonce::NonceTracker;
use crate::tx::{build_transaction, bump_fee, bumped_price, copy_bytes, FeeParams, SignedTransaction, UnsignedTransaction};

verus! {

/// Limits of the retry paths, and the fee bump.
#[derive(Clone, Copy, Debug, PartialEq, Eq, Structural)]
pub struct RetryPolicy {
    /// Attempts at a transient step (node context, fee estimate, sending) before giving up.
    pub max_attempts: u32,
    /// Rebuilds after a `NonceTooLow` or `Underpriced` rejection before giving up.
    pub max_resubmits: u32,
    /// Receipt polls after acceptance before giving up with `ConfirmationTimeout`.
    pub max_polls: u32,
    /// Percentage by which the gas price grows after an `Underpriced` rejection.
    pub fee_bump_percent: u32,
    pub base_delay_ms: u64,
    pub max_delay_ms: u64,
}

/// Why the node refused a transaction.
#[derive(Clone, Debug)]
pub enum RejectReason {
    NonceTooLow,
    Underpriced,
    InsufficientFunds,
    Other(String),
}

/// What the node answered to a submission.
#[derive(Clone, Debug)]
pub enum SubmissionOutcome {
    /// Taken into the node's pending pool.
    Accepted,
    Rejected(RejectReason),
    /// The node could not be reached; nothing is known of the transaction.
    NetworkError,
}

/// What the node reports of a transaction hash.
#[derive(Clone, Copy, Debug, PartialEq, Eq, Structural)]
pub enum ReceiptStatus {
    Confirmed,
    StillPending,
    NotFound,
}

/// Why a relay action ended without confirmation.
#[derive(Clone, Debug)]
pub enum Failure {
    Encoding(EncodingError),
    InvalidTarget,
    ContextUnavailable,
    FeeEstimationFailed,
    NoncesExhausted,
    SigningUnavailable,
    Rejected(RejectReason),
    NetworkError,
    ConfirmationTimeout,
    /// The caller cancelled the action.
    Cancelled,
}

/// The step that a retry repeats.
#[derive(Clone, Copy, Debug, PartialEq, Eq, Structural)]
pub enum Stage {
    Context,
    Submission,
}

/// Where a relay action stands. An action is encoded as it is created; `Confirmed`
/// and `Failed` are terminal.
#[derive(Clone, Debug)]
pub enum Phase {
    Encoded,
    Built,
    Signed,
    Submitted,
    Confirmed,
    Failed(Failure),
    Retrying(Stage),
}

/// What the caller is to do next, and then report back.
#[derive(Clone, Debug)]
pub enum Action {
    /// Ask the node for the chain id, the account's transaction count and, where
    /// needed, a fee estimate, after waiting `delay_ms`.
    FetchContext { delay_ms: u64 },
    /// Sign this transaction with the account's credential.
    Sign(UnsignedTransaction),
    /// Send these signed bytes to the node, after waiting `delay_ms`.
    Submit { raw: Vec<u8>, delay_ms: u64 },
    /// Ask the node for the receipt of this transaction hash.
    PollReceipt { hash: Vec<u8> },
    /// Nothing more: the action is in a terminal phase.
    Finish,
}

/// A transaction handed out for signing.
pub ghost struct SignRecord {
    pub to: Seq<u8>,
    pub data: Seq<u8>,
    pub nonce: u64,
    pub chain_id: u64,
    pub fee: FeeParams,
}

pub open spec fn record_of(tx: UnsignedTransaction) -> SignRecord {
    SignRecord { to: tx.to@, data: tx.data@, nonce: tx.nonce, chain_id: tx.chain_id, fee: tx.fee }
}

/// Model of a [`Relay`].
pub ghost struct RelayView {
    pub target: Seq<u8>,
    pub data: Seq<u8>,
    pub policy: RetryPolicy,
    pub supplied_fee: Option<FeeParams>,
    pub phase: Phase,
    pub nonce: u64,
    pub chain_id: u64,
    pub fee: FeeParams,
    /// Every nonce this action has had signed is below `floor`.
    pub floor: u64,
    pub signed: Option<(Seq<u8>, Seq<u8>)>,
    pub attempts: u64,
    pub resubmits: u64,
    pub polls: u64,
    pub broadcast: bool,
    pub signings: Seq<SignRecord>,
}

/// Delay before retry number `k + 1`: the base delay doubled `k` times, capped.
pub open spec fn backoff(base: nat, cap: nat, k: nat) -> nat
    decreases k,
{
    if k == 0 {
        if base < cap { base } else { cap }
    } else {
        let d = 2 * backoff(base, cap, (k - 1) as nat);
        if d < cap { d } else { cap }
    }
}

/// Computes [`backoff`].
pub fn backoff_delay(base: u64, cap: u64, k: u64) -> (r: u64)
    ensures
        r as nat == backoff(base as nat, cap as nat, k as nat),
{
    let mut d: u64 = if base < cap { base } else { cap };
    let mut i: u64 = 0;
    while i < k
        invariant
            i <= k,
            d <= cap,
            d as nat == backoff(base as nat, cap as nat, i as nat),
        decreases k - i,
    {
        d = if d < cap / 2 + cap % 2 && d * 2 < cap { d * 2 } else { cap };
        i = i + 1;
    }
    d
}

/// One relay action: a call into a contract, carried from encoding to confirmation.
///
/// The caller performs each [`Action`] and reports its result through the matching
/// `on_*` method.
pub struct Relay {
    target: Vec<u8>,
    data: Vec<u8>,
    policy: RetryPolicy,
    supplied_fee: Option<FeeParams>,
    phase: Phase,
    nonce: u64,
    chain_id: u64,
    fee: FeeParams,
    floor: u64,
    signed: Option<SignedTransaction>,
    attempts: u64,
    resubmits: u64,
    polls: u64,
    broadcast: bool,
    signings: Ghost<Seq<SignRecord>>,
}

/// The phases in which the action holds a reserved nonce.
pub open spec fn holds_nonce(p: Phase) -> bool {
    p is Built || p is Signed || p is Submitted || p == Phase::Retrying(Stage::Submission)
}

/// The phases in which signed bytes are at hand.
pub open spec fn has_signed(p: Phase) -> bool {
    p is Signed || p is Submitted || p == Phase::Retrying(Stage::Submission) || p is Confirmed
}

impl View for Relay {
    type V = RelayView;

    closed spec fn view(&self) -> RelayView {
        RelayView {
            target: self.target@,
            data: self.data@,
            policy: self.policy,
            supplied_fee: self.supplied_fee,
            phase: self.phase,
            nonce: self.nonce,
            chain_id: self.chain_id,
            fee: self.fee,
            floor: self.floor,
            signed: match self.signed {
                Some(s) => Some((s.raw@, s.hash@)),
                None => None,
            },
            attempts: self.attempts,
            resubmits: self.resubmits,
            polls: self.polls,
            broadcast: self.broadcast,
            signings: self.signings@,
        }
    }
}

impl Relay {
    pub open spec fn wf(&self) -> bool {
        let v = self@;
        &&& v.attempts <= u32::MAX
        &&& v.resubmits <= u32::MAX
        &&& v.polls <= u32::MAX
        &&& forall|i: int| 0 <= i < v.signings.len() ==> (#[trigger] v.signings[i]).to == v.target
            && v.signings[i].data == v.data && v.signings[i].nonce < v.floor
        &&& forall|i: int, j: int|
            0 <= i < v.signings.len() && 0 <= j < v.signings.len() && (#[trigger] v.signings[i]).nonce
                == (#[trigger] v.signings[j]).nonce ==> v.signings[i].chain_id == v.signings[j].chain_id
        &&& holds_nonce(v.phase) ==> {
            &&& v.target.len() == 20
            &&& v.floor == v.nonce + 1
            &&& forall|i: int| 0 <= i < v.signings.len() && (#[trigger] v.signings[i]).nonce == v.nonce
                ==> v.signings[i].chain_id == v.chain_id
        }
        &&& has_signed(v.phase) ==> v.signed is Some
        &&& v.signed is Some ==> v.broadcast
    }
}

impl Relay {
    /// Starts a relay action: encodes the call of `method` with `args` for the contract
    /// at `target`. `fee` is the caller's fee, or `None` to have it estimated.
    pub fn new(target: Vec<u8>, method: &MethodDescriptor, args: &Vec<Token>, fee: Option<FeeParams>, policy: RetryPolicy) -> (r: (Relay, Action))
        ensures
            r.0.wf(),
            r.0@.target == target@,
            r.0@.policy == policy,
            r.0@.supplied_fee == fee,
            r.0@.signings.len() == 0,
            r.0@.attempts == 0,
            r.0@.resubmits == 0,
            !r.0@.broadcast,
            match call_data(
                keccak_of(signature_of(method.name@, method.inputs@)).take(4),
                method.inputs@,
                values_of(args@),
            ) {
                Ok(data) => r.0@.data == data && r.0@.phase is Encoded && r.1 == (Action::FetchContext { delay_ms: 0 }),
                Err(e) => r.0@.phase == Phase::Failed(Failure::Encoding(e)) && r.1 is Finish,
            },
    {
        let (data, phase, action) = match encode_call(method, args) {
            Ok(d) => (d, Phase::Encoded, Action::FetchContext { delay_ms: 0 }),
            Err(e) => (Vec::new(), Phase::Failed(Failure::Encoding(e)), Action::Finish),
        };
        let relay = Relay {
            target,
            data,
            policy,
            supplied_fee: fee,
            phase,
            nonce: 0,
            chain_id: 0,
            fee: FeeParams { gas_limit: 0, gas_price: 0 },
            floor: 0,
            signed: None,
            attempts: 0,
            resubmits: 0,
            polls: 0,
            broadcast: false,
            signings: Ghost(Seq::empty()),
        };
        (relay, action)
    }

    /// Where the action stands.
    pub fn phase(&self) -> (r: &Phase)
        ensures
            *r == self@.phase,
    {
        &self.phase
    }

    /// Whether signed bytes were handed out to be sent: the transaction may have reached
    /// the network, and may still be mined after the action gave up.
    pub fn was_broadcast(&self) -> (r: bool)
        ensures
            r == self@.broadcast,
    {
        self.broadcast
    }

    /// The hash of the transaction last signed, if any is at hand.
    pub fn tx_hash(&self) -> (r: Option<Vec<u8>>)
        ensures
            r matches Some(h) ==> self@.signed matches Some(s) && h@ == s.1,
            r is None ==> self@.signed is None,
    {
        match &self.signed {
            Some(s) => Some(copy_bytes(&s.hash)),
            None => None,
        }
    }

    /// The call data of the action.
    pub fn call_data(&self) -> (r: &Vec<u8>)
        ensures
            r@ == self@.data,
    {
        &self.data
    }

    /// The nonce of the transaction last built.
    pub fn nonce(&self) -> (r: u64)
        ensures
            r == self@.nonce,
    {
        self.nonce
    }

    /// The fee of the transaction last built.
    pub fn fee(&self) -> (r: FeeParams)
        ensures
            r == self@.fee,
    {
        self.fee
    }

    fn fail(&mut self, f: Failure) -> (r: Action)
        requires
            old(self).wf(),
        ensures
            final(self).wf(),
            final(self)@ == (RelayView { phase: Phase::Failed(f), ..old(self)@ }),
            r is Finish,
    {
        self.phase = Phase::Failed(f);
        Action::Finish
    }

    /// A transient failure before building: retried with backoff up to the attempt limit.
    fn retry_context(&mut self, f: Failure) -> (r: Action)
        requires
            old(self).wf(),
            !holds_nonce(old(self)@.phase),
            !has_signed(old(self)@.phase),
        ensures
            final(self).wf(),
            old(self)@.attempts + 1 >= old(self)@.policy.max_attempts ==> final(self)@ == (RelayView {
                phase: Phase::Failed(f),
                ..old(self)@
            }) && r is Finish,
            old(self)@.attempts + 1 < old(self)@.policy.max_attempts ==> final(self)@ == (RelayView {
                phase: Phase::Retrying(Stage::Context),
                attempts: (old(self)@.attempts + 1) as u64,
                ..old(self)@
            }) && r is FetchContext,
            r matches Action::FetchContext { delay_ms } ==> delay_ms as nat == backoff(
                old(self)@.policy.base_delay_ms as nat,
                old(self)@.policy.max_delay_ms as nat,
                old(self)@.attempts as nat,
            ),
    {
        let a = self.attempts + 1;
        if a >= self.policy.max_attempts as u64 {
            self.phase = Phase::Failed(f);
            return Action::Finish;
        }
        let delay_ms = backoff_delay(self.policy.base_delay_ms, self.policy.max_delay_ms, self.attempts);
        self.attempts = a;
        self.phase = Phase::Retrying(Stage::Context);
        Action::FetchContext { delay_ms }
    }

    /// Reports the node's context: `Some((chain_id, transaction_count))`, or `None`
    /// when the query failed; `estimate` is the fee estimate, `None` when it failed.
    /// On success a fresh nonce is reserved and the transaction is handed out to be signed.
    pub fn on_context(
        &mut self,
        tracker: &mut NonceTracker,
        context: Option<(u64, u64)>,
        estimate: Option<FeeParams>,
    ) -> (r: Action)
        requires
            old(self).wf(),
            old(tracker).wf(),
            old(self)@.phase is Encoded || old(self)@.phase == Phase::Retrying(Stage::Context),
        ensures
            final(self).wf(),
            final(tracker).wf(),
            final(tracker).next_spec() >= old(tracker).next_spec(),
            context is None ==> r is Finish || r is FetchContext,
            context is None && old(self)@.attempts + 1 >= old(self)@.policy.max_attempts ==> final(self)@.phase
                == Phase::Failed(Failure::ContextUnavailable),
            r matches Action::Sign(tx) ==> {
                &&& context matches Some((chain_id, count)) && tx.chain_id == chain_id
                    && tx.nonce as nat == max_of(old(tracker).next_spec(), count as nat, old(self)@.floor as nat)
                &&& tx.to@ == old(self)@.target && tx.data@ == old(self)@.data
                &&& Some(tx.fee) == if old(self)@.supplied_fee is Some { old(self)@.supplied_fee } else { estimate }
                &&& final(self)@.phase is Built && final(self)@.nonce == tx.nonce && final(self)@.fee == tx.fee
                &&& final(self)@.signings == old(self)@.signings.push(record_of(tx))
                &&& final(tracker).reserved_spec().contains(tx.nonce)
            },
            !(r is Sign) ==> final(self)@.signings == old(self)@.signings,
            context matches Some((chain_id, count)) && old(self)@.target.len() == 20 && (
            old(self)@.supplied_fee is Some || estimate is Some) && max_of(
                old(tracker).next_spec(),
                count as nat,
                old(self)@.floor as nat,
            ) < u64::MAX ==> r is Sign,
            context matches Some((chain_id, count)) && max_of(
                old(tracker).next_spec(),
                count as nat,
                old(self)@.floor as nat,
            ) < u64::MAX && old(self)@.target.len() != 20 ==> r is Finish && final(self)@.phase
                == Phase::Failed(Failure::InvalidTarget),
            context matches Some((chain_id, count)) && max_of(
                old(tracker).next_spec(),
                count as nat,
                old(self)@.floor as nat,
            ) >= u64::MAX ==> r is Finish && final(self)@.phase == Phase::Failed(Failure::NoncesExhausted),
            context matches Some((chain_id, count)) && max_of(
                old(tracker).next_spec(),
                count as nat,
                old(self)@.floor as nat,
            ) < u64::MAX && old(self)@.target.len() == 20 && old(self)@.supplied_fee is None && estimate is None
                && old(self)@.attempts + 1 >= old(self)@.policy.max_attempts ==> r is Finish && final(self)@.phase
                == Phase::Failed(Failure::FeeEstimationFailed),
            context matches Some((chain_id, count)) && max_of(
                old(tracker).next_spec(),
                count as nat,
                old(self)@.floor as nat,
            ) < u64::MAX && old(self)@.target.len() == 20 && old(self)@.supplied_fee is None && estimate is None
                && old(self)@.attempts + 1 < old(self)@.policy.max_attempts ==> r is FetchContext && final(self)@.phase
                == Phase::Retrying(Stage::Context),
            !(r is Sign) ==> final(tracker).reserved_spec() == old(tracker).reserved_spec(),
    {
        let (chain_id, count) = match context {
            None => return self.retry_context(Failure::ContextUnavailable),
            Some(c) => c,
        };
        tracker.sync(chain_id, count);
        tracker.advance_to(self.floor);
        let n = match tracker.reserve_nonce() {
            Ok(n) => n,
            Err(_) => return self.fail(Failure::NoncesExhausted),
        };
        let fee = match self.supplied_fee {
            Some(f) => Some(f),
            None => estimate,
        };
        match build_transaction(&self.target, &self.data, n, chain_id, fee) {
            Err(crate::tx::BuildError::InvalidTarget) => {
                let ghost before = tracker.reserved_spec();
                tracker.release_on_failure(n);
                assert(tracker.reserved_spec() =~= before.remove(n));
                self.fail(Failure::InvalidTarget)
            },
            Err(crate::tx::BuildError::FeeEstimationFailed) => {
                tracker.release_on_failure(n);
                self.retry_context(Failure::FeeEstimationFailed)
            },
            Ok(tx) => {
                proof {
                    assert(n >= self.floor);
                    assert forall|i: int| 0 <= i < self.signings@.len() implies (#[trigger] self.signings@[i]).nonce < n by {
                        assert(self@.signings[i].nonce < self@.floor);
                    }
                }
                self.phase = Phase::Built;
                self.nonce = n;
                self.chain_id = chain_id;
                self.fee = tx.fee;
                self.floor = n + 1;
                self.attempts = 0;
                self.signings = Ghost(self.signings@.push(record_of(tx)));
                Action::Sign(tx)
            },
        }
    }
}

impl Relay {
    /// Reports the signed transaction: it is handed out to be sent to the node.
    pub fn on_signed(&mut self, signed: SignedTransaction) -> (r: Action)
        requires
            old(self).wf(),
            old(self)@.phase is Built,
        ensures
            final(self).wf(),
            final(self)@ == (RelayView {
                phase: Phase::Signed,
                signed: Some((signed.raw@, signed.hash@)),
                attempts: 0,
                broadcast: true,
                ..old(self)@
            }),
            resends(r, Some((signed.raw@, signed.hash@))),
            r matches Action::Submit { delay_ms, .. } ==> delay_ms == 0,
    {
        let raw = copy_bytes(&signed.raw);
        self.signed = Some(signed);
        self.phase = Phase::Signed;
        self.attempts = 0;
        self.broadcast = true;
        Action::Submit { raw, delay_ms: 0 }
    }

    /// Reports that the credential could not be used: the action fails and its nonce is
    /// released.
    pub fn on_signing_unavailable(&mut self, tracker: &mut NonceTracker) -> (r: Action)
        requires
            old(self).wf(),
            old(tracker).wf(),
            old(self)@.phase is Built,
        ensures
            final(self).wf(),
            final(tracker).wf(),
            final(self)@ == (RelayView { phase: Phase::Failed(Failure::SigningUnavailable), ..old(self)@ }),
            final(tracker).next_spec() == old(tracker).next_spec(),
            final(tracker).reserved_spec() == old(tracker).reserved_spec().remove(old(self)@.nonce),
            r is Finish,
    {
        tracker.release_on_failure(self.nonce);
        self.fail(Failure::SigningUnavailable)
    }

    /// Reports the node's answer to a submission.
    ///
    /// `Accepted` leads to receipt polling. `NetworkError` resends the same bytes with
    /// backoff. `NonceTooLow` releases the nonce and asks for a fresh context, from which
    /// a greater nonce is reserved. `Underpriced` rebuilds the same transaction with a
    /// higher fee. Every other rejection is final.
    pub fn on_submission(&mut self, tracker: &mut NonceTracker, outcome: SubmissionOutcome) -> (r: Action)
        requires
            old(self).wf(),
            old(tracker).wf(),
            old(self)@.phase is Signed || old(self)@.phase == Phase::Retrying(Stage::Submission),
        ensures
            final(self).wf(),
            final(tracker).wf(),
            final(tracker).next_spec() == old(tracker).next_spec(),
            outcome is Accepted ==> final(self)@.phase is Submitted && polls_for(r, old(self)@.signed),
            outcome is NetworkError && old(self)@.attempts + 1 < old(self)@.policy.max_attempts ==> (
            final(self)@.phase == Phase::Retrying(Stage::Submission)) && final(self)@.signed == old(self)@.signed
                && resends(r, old(self)@.signed),
            outcome is NetworkError && old(self)@.attempts + 1 >= old(self)@.policy.max_attempts ==> (
            final(self)@.phase matches Phase::Failed(Failure::NetworkError)) && r is Finish,
            outcome matches SubmissionOutcome::Rejected(RejectReason::NonceTooLow) ==> {
                if old(self)@.resubmits + 1 < old(self)@.policy.max_resubmits {
                    &&& final(self)@.phase is Encoded
                    &&& final(self)@.floor == old(self)@.nonce + 1
                    &&& r == (Action::FetchContext { delay_ms: 0 })
                } else {
                    final(self)@.phase matches Phase::Failed(Failure::Rejected(RejectReason::NonceTooLow))
                        && r is Finish
                }
            },
            outcome matches SubmissionOutcome::Rejected(RejectReason::NonceTooLow) ==> final(tracker).reserved_spec()
                == old(tracker).reserved_spec().remove(old(self)@.nonce),
            outcome matches SubmissionOutcome::Rejected(RejectReason::Underpriced) ==> {
                let price = bumped_price(old(self)@.fee.gas_price as nat, old(self)@.policy.fee_bump_percent as nat);
                if old(self)@.resubmits + 1 < old(self)@.policy.max_resubmits && price <= u128::MAX {
                    r matches Action::Sign(tx) && {
                        &&& tx.nonce == old(self)@.nonce
                        &&& tx.chain_id == old(self)@.chain_id
                        &&& tx.to@ == old(self)@.target
                        &&& tx.data@ == old(self)@.data
                        &&& tx.fee.gas_limit == old(self)@.fee.gas_limit
                        &&& tx.fee.gas_price as nat == price
                        &&& tx.fee.gas_price > old(self)@.fee.gas_price
                        &&& final(self)@.phase is Built
                        &&& final(self)@.signings == old(self)@.signings.push(record_of(tx))
                    }
                } else {
                    final(self)@.phase matches Phase::Failed(Failure::Rejected(RejectReason::Underpriced))
                        && r is Finish
                }
            },
            outcome matches SubmissionOutcome::Rejected(RejectReason::InsufficientFunds) ==> (final(self)@.phase matches Phase::Failed(Failure::Rejected(RejectReason::InsufficientFunds))) && r is Finish,
            outcome matches SubmissionOutcome::Rejected(RejectReason::Other(m)) ==> final(self)@.phase == Phase::Failed(Failure::Rejected(RejectReason::Other(m))) && r is Finish,
            !(r is Sign) ==> final(self)@.signings == old(self)@.signings,
            final(self)@.target == old(self)@.target && final(self)@.data == old(self)@.data,
    {
        match outcome {
            SubmissionOutcome::Accepted => {
                let hash = match &self.signed {
                    Some(s) => copy_bytes(&s.hash),
                    None => Vec::new(),
                };
                self.phase = Phase::Submitted;
                self.polls = 0;
                Action::PollReceipt { hash }
            },
            SubmissionOutcome::NetworkError => {
                let a = self.attempts + 1;
                if a >= self.policy.max_attempts as u64 {
                    tracker.release_on_failure(self.nonce);
                    return self.fail(Failure::NetworkError);
                }
                let delay_ms = backoff_delay(self.policy.base_delay_ms, self.policy.max_delay_ms, self.attempts);
                let raw = match &self.signed {
                    Some(s) => copy_bytes(&s.raw),
                    None => Vec::new(),
                };
                self.attempts = a;
                self.phase = Phase::Retrying(Stage::Submission);
                Action::Submit { raw, delay_ms }
            },
            SubmissionOutcome::Rejected(RejectReason::NonceTooLow) => {
                tracker.release_on_failure(self.nonce);
                let k = self.resubmits + 1;
                if k >= self.policy.max_resubmits as u64 {
                    return self.fail(Failure::Rejected(RejectReason::NonceTooLow));
                }
                self.resubmits = k;
                self.attempts = 0;
                self.signed = None;
                self.phase = Phase::Encoded;
                Action::FetchContext { delay_ms: 0 }
            },
            SubmissionOutcome::Rejected(RejectReason::Underpriced) => {
                let k = self.resubmits + 1;
                let bumped = bump_fee(self.fee, self.policy.fee_bump_percent);
                if k >= self.policy.max_resubmits as u64 || bumped.is_none() {
                    tracker.release_on_failure(self.nonce);
                    return self.fail(Failure::Rejected(RejectReason::Underpriced));
                }
                let fee = bumped.unwrap();
                match build_transaction(&self.target, &self.data, self.nonce, self.chain_id, Some(fee)) {
                    Ok(tx) => {
                        proof {
                            let v = self@;
                            let sg = v.signings.push(record_of(tx));
                            assert forall|i: int, j: int|
                                0 <= i < sg.len() && 0 <= j < sg.len() && (#[trigger] sg[i]).nonce == (#[trigger] sg[j]).nonce
                                implies sg[i].chain_id == sg[j].chain_id by {
                                if i < v.signings.len() && j < v.signings.len() {
                                    assert(v.signings[i] == sg[i] && v.signings[j] == sg[j]);
                                } else if i < v.signings.len() {
                                    assert(v.signings[i] == sg[i]);
                                } else if j < v.signings.len() {
                                    assert(v.signings[j] == sg[j]);
                                }
                            }
                        }
                        self.resubmits = k;
                        self.fee = fee;
                        self.signed = None;
                        self.phase = Phase::Built;
                        self.signings = Ghost(self.signings@.push(record_of(tx)));
                        Action::Sign(tx)
                    },
                    Err(_) => {
                        tracker.release_on_failure(self.nonce);
                        self.fail(Failure::InvalidTarget)
                    },
                }
            },
            SubmissionOutcome::Rejected(reason) => {
                tracker.release_on_failure(self.nonce);
                self.fail(Failure::Rejected(reason))
            },
        }
    }

    /// Reports a receipt poll: confirmation ends the action; otherwise polling goes on
    /// up to the poll limit, after which the action fails with `ConfirmationTimeout`.
    pub fn on_receipt(&mut self, status: ReceiptStatus) -> (r: Action)
        requires
            old(self).wf(),
            old(self)@.phase is Submitted,
        ensures
            final(self).wf(),
            status is Confirmed ==> final(self)@ == (RelayView { phase: Phase::Confirmed, ..old(self)@ }) && r is Finish,
            !(status is Confirmed) && old(self)@.polls + 1 >= old(self)@.policy.max_polls ==> (
            final(self)@.phase matches Phase::Failed(Failure::ConfirmationTimeout)) && r is Finish,
            !(status is Confirmed) && old(self)@.polls + 1 < old(self)@.policy.max_polls ==> (
            final(self)@.phase is Submitted) && final(self)@.polls == old(self)@.polls + 1 && polls_for(r, old(self)@.signed),
            final(self)@.signings == old(self)@.signings,
    {
        match status {
            ReceiptStatus::Confirmed => {
                self.phase = Phase::Confirmed;
                Action::Finish
            },
            _ => {
                let k = self.polls + 1;
                if k >= self.policy.max_polls as u64 {
                    return self.fail(Failure::ConfirmationTimeout);
                }
                self.polls = k;
                let hash = match &self.signed {
                    Some(s) => copy_bytes(&s.hash),
                    None => Vec::new(),
                };
                Action::PollReceipt { hash }
            },
        }
    }
}

/// `r` asks for the receipt of the hash of `signed`.
impl Relay {
    /// Cancels the action. A reserved nonce whose transaction was never handed out to be
    /// sent is released; once it was, the transaction cannot be withdrawn and cancelling
    /// only stops watching it. A terminal action stays as it is.
    pub fn cancel(&mut self, tracker: &mut NonceTracker) -> (r: Action)
        requires
            old(self).wf(),
            old(tracker).wf(),
        ensures
            final(self).wf(),
            final(tracker).wf(),
            final(tracker).next_spec() == old(tracker).next_spec(),
            r is Finish,
            old(self)@.phase is Confirmed || old(self)@.phase is Failed ==> final(self)@ == old(self)@
                && *final(tracker) == *old(tracker),
            !(old(self)@.phase is Confirmed || old(self)@.phase is Failed) ==> final(self)@ == (RelayView {
                phase: Phase::Failed(Failure::Cancelled),
                ..old(self)@
            }),
            !(old(self)@.phase is Confirmed || old(self)@.phase is Failed) && holds_nonce(old(self)@.phase)
                && !old(self)@.broadcast ==> final(tracker).reserved_spec() == old(tracker).reserved_spec().remove(
                old(self)@.nonce,
            ),
            !(holds_nonce(old(self)@.phase) && !old(self)@.broadcast) ==> final(tracker).reserved_spec()
                == old(tracker).reserved_spec(),
    {
        match self.phase {
            Phase::Confirmed | Phase::Failed(_) => Action::Finish,
            _ => {
                if !self.broadcast && (matches!(self.phase, Phase::Built) || matches!(self.phase, Phase::Signed)
                    || matches!(self.phase, Phase::Submitted) || matches!(self.phase, Phase::Retrying(Stage::Submission))) {
                    tracker.release_on_failure(self.nonce);
                }
                self.fail(Failure::Cancelled)
            },
        }
    }
}

pub open spec fn polls_for(r: Action, signed: Option<(Seq<u8>, Seq<u8>)>) -> bool {
    match (r, signed) {
        (Action::PollReceipt { hash }, Some(s)) => hash@ == s.1,
        _ => false,
    }
}

/// `r` sends the raw bytes of `signed`.
pub open spec fn resends(r: Action, signed: Option<(Seq<u8>, Seq<u8>)>) -> bool {
    match (r, signed) {
        (Action::Submit { raw, .. }, Some(s)) => raw@ == s.0,
        _ => false,
    }
}

pub open spec fn max_of(a: nat, b: nat, c: nat) -> nat {
    let m = if a > b { a } else { b };
    if m > c { m } else { c }
}

/// A signature binds one payload to each nonce: every two transactions that an action
/// hands out for signing with the same nonce have the same target, call data and chain
/// id; only the fee may differ (the fee-bump path).
pub proof fn lemma_one_payload_per_nonce(r: &Relay)
    requires
        r.wf(),
    ensures
        forall|i: int, j: int|
            0 <= i < r@.signings.len() && 0 <= j < r@.signings.len() && (#[trigger] r@.signings[i]).nonce
                == (#[trigger] r@.signings[j]).nonce ==> r@.signings[i].to == r@.signings[j].to
                && r@.signings[i].data == r@.signings[j].data && r@.signings[i].chain_id
                == r@.signings[j].chain_id,
{
}

/// A `NonceTooLow` rejection is retried with a greater nonce: once the rejection of
/// `rejected` has left the action at `after`, the nonce of the transaction that
/// `on_context` then hands out for signing, whatever the tracker and the node report,
/// is greater than `rejected`.
pub proof fn lemma_nonce_too_low_retry(rejected: u64, after: RelayView, tracker_next: nat, count: nat, retry: u64)
    requires
        after.floor == rejected + 1,
        retry as nat == max_of(tracker_next, count, after.floor as nat),
    ensures
        retry > rejected,
{
}

/// `needle` occurs in `hay` at some position.
pub open spec fn contains_bytes(hay: Seq<u8>, needle: Seq<u8>) -> bool {
    exists|i: int| 0 <= i && i + needle.len() <= hay.len() && #[trigger] hay.subrange(i, i + needle.len()) == needle
}

/// Whether `needle` occurs in `hay`.
pub fn find_bytes(hay: &[u8], needle: &[u8]) -> (r: bool)
    ensures
        r == contains_bytes(hay@, needle@),
{
    let n = needle.len();
    if n > hay.len() {
        return false;
    }
    let mut i: usize = 0;
    let len = hay.len();
    while i <= len - n
        invariant
            len == hay@.len(),
            n == needle@.len(),
            n <= hay@.len(),
            i <= hay@.len() - n + 1,
            forall|j: int| 0 <= j < i ==> #[trigger] hay@.subrange(j, j + n) != needle@,
        decreases hay@.len() - i,
    {
        let mut k: usize = 0;
        let mut same = true;
        while k < n
            invariant
                len == hay@.len(),
                n == needle@.len(),
                i + n <= hay@.len(),
                k <= n,
                same <==> forall|m: int| 0 <= m < k ==> hay@[i + m] == needle@[m],
            decreases n - k,
        {
            if hay[i + k] != needle[k] {
                same = false;
            }
            k = k + 1;
        }
        if same {
            assert(hay@.subrange(i as int, i + n) =~= needle@);
            return true;
        }
        assert(hay@.subrange(i as int, i + n) != needle@) by {
            let m = choose|m: int| 0 <= m < n && hay@[i + m] != needle@[m];
            assert(hay@.subrange(i as int, i + n)[m] != needle@[m]);
        }
        i = i + 1;
    }
    proof {
        if contains_bytes(hay@, needle@) {
            let j = choose|j: int| 0 <= j && j + needle@.len() <= hay@.len() && #[trigger] hay@.subrange(j, j + needle@.len()) == needle@;
            assert(hay@.subrange(j, j + n) != needle@);
        }
    }
    false
}

pub open spec fn nonce_too_low_text() -> Seq<u8> {
    seq![110u8, 111, 110, 99, 101, 32, 116, 111, 111, 32, 108, 111, 119]
}

pub open spec fn underpriced_text() -> Seq<u8> {
    seq![117u8, 110, 100, 101, 114, 112, 114, 105, 99, 101, 100]
}

pub open spec fn insufficient_funds_text() -> Seq<u8> {
    seq![105u8, 110, 115, 117, 102, 102, 105, 99, 105, 101, 110, 116, 32, 102, 117, 110, 100, 115]
}

/// The reason that a node's rejection message gives, from the message in lower case.
pub open spec fn rejection_of(lowered: Seq<u8>, message: String) -> RejectReason {
    if contains_bytes(lowered, nonce_too_low_text()) {
        RejectReason::NonceTooLow
    } else if contains_bytes(lowered, underpriced_text()) {
        RejectReason::Underpriced
    } else if contains_bytes(lowered, insufficient_funds_text()) {
        RejectReason::InsufficientFunds
    } else {
        RejectReason::Other(message)
    }
}

/// The bytes of the lower-case form of a text.
pub uninterp spec fn lower_bytes_of(s: Seq<char>) -> Seq<u8>;

/// Relies on str::to_lowercase: the lower-case form depends on the characters alone.
#[verifier::external_body]
fn lowercase_bytes(s: &str) -> (r: Vec<u8>)
    ensures
        r@ == lower_bytes_of(s@),
{
    s.to_lowercase().into_bytes()
}

/// Classifies a rejection message of the node by the lower-case form `lowered` of
/// `message`: "nonce too low", "underpriced" and "insufficient funds", in this order;
/// any other message is kept as it is.
pub fn classify_lowered(lowered: &[u8], message: String) -> (r: RejectReason)
    ensures
        r == rejection_of(lowered@, message),
{
    let t1: [u8; 13] = [110, 111, 110, 99, 101, 32, 116, 111, 111, 32, 108, 111, 119];
    let t2: [u8; 11] = [117, 110, 100, 101, 114, 112, 114, 105, 99, 101, 100];
    let t3: [u8; 18] = [105, 110, 115, 117, 102, 102, 105, 99, 105, 101, 110, 116, 32, 102, 117, 110, 100, 115];
    assert(t1@ == nonce_too_low_text());
    assert(t2@ == underpriced_text());
    assert(t3@ == insufficient_funds_text());
    if find_bytes(lowered, t1.as_slice()) {
        RejectReason::NonceTooLow
    } else if find_bytes(lowered, t2.as_slice()) {
        RejectReason::Underpriced
    } else if find_bytes(lowered, t3.as_slice()) {
        RejectReason::InsufficientFunds
    } else {
        RejectReason::Other(message)
    }
}

/// Classifies a rejection message of the node, ignoring case.
pub fn classify_rejection(message: String) -> (r: RejectReason)
    ensures
        r == rejection_of(lower_bytes_of(message@), message),
{
    let lowered = lowercase_bytes(message.as_str());
    classify_lowered(lowered.as_slice(), message)
}

} // verus!
