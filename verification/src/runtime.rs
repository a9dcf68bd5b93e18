//! The runtime: one instance of every module behind a single dispatch
//! surface, and the block-execution algorithm.

use vstd::prelude::*;
use crate::balances;
use crate::proof_of_existence;
use crate::system;
use crate::types;

verus! {

/// The top-level call: a call of one of the composed modules.
pub enum RuntimeCall {
    /// A call of the balances module.
    Balances(balances::Call),
    /// A call of the proof-of-existence module.
    ProofOfExistence(proof_of_existence::Call),
}

/// The errors the runtime can report: a module's error carried through
/// dispatch unchanged, or a rejected block header.
#[derive(Clone, Copy, Debug, PartialEq, Eq)]
pub enum RuntimeError {
    /// An error of the balances module.
    Balances(balances::Error),
    /// An error of the proof-of-existence module.
    ProofOfExistence(proof_of_existence::Error),
    /// The incoming header's block number is not the one the runtime
    /// reached; the whole block is rejected.
    BlockNumberMismatch,
}

/// The whole world state, as contracts speak of it: the block number and
/// the three ledgers.
#[verifier::ext_equal]
pub ghost struct RuntimeView {
    /// The current block number.
    pub block_number: u32,
    /// Account identifier to balance.
    pub balances: Map<Seq<char>, u128>,
    /// Account identifier to transaction count.
    pub nonces: Map<Seq<char>, u32>,
    /// Content identifier to owning account.
    pub claims: Map<Seq<char>, String>,
}

/// The state after a call is dispatched: exactly the owning module's
/// ledger moves, every other part of the state stays.
pub open spec fn dispatch_state(s: RuntimeView, caller: String, call: RuntimeCall) -> RuntimeView {
    match call {
        RuntimeCall::Balances(balances::Call::Transfer { to, amount }) => RuntimeView {
            balances: balances::transfer_updates(s.balances, caller@, to@, amount),
            ..s
        },
        RuntimeCall::ProofOfExistence(proof_of_existence::Call::CreateClaim { claim }) => RuntimeView {
            claims: proof_of_existence::create_updates(s.claims, caller, claim@),
            ..s
        },
        RuntimeCall::ProofOfExistence(proof_of_existence::Call::RevokeClaim { claim }) => RuntimeView {
            claims: proof_of_existence::revoke_updates(s.claims, caller@, claim@),
            ..s
        },
    }
}

/// The result a dispatched call reports: the owning module's result, its
/// error carried through unchanged.
pub open spec fn dispatch_outcome(s: RuntimeView, caller: String, call: RuntimeCall) -> Result<
    (),
    RuntimeError,
> {
    match call {
        RuntimeCall::Balances(balances::Call::Transfer { to, amount }) => (match
            balances::transfer_outcome(s.balances, caller@, to@, amount) {
            Ok(()) => Ok(()),
            Err(e) => Err(RuntimeError::Balances(e)),
        }),
        RuntimeCall::ProofOfExistence(proof_of_existence::Call::CreateClaim { claim }) => (match
            proof_of_existence::create_outcome(s.claims, claim@) {
            Ok(()) => Ok(()),
            Err(e) => Err(RuntimeError::ProofOfExistence(e)),
        }),
        RuntimeCall::ProofOfExistence(proof_of_existence::Call::RevokeClaim { claim }) => (match
            proof_of_existence::revoke_outcome(s.claims, caller@, claim@) {
            Ok(()) => Ok(()),
            Err(e) => Err(RuntimeError::ProofOfExistence(e)),
        }),
    }
}

/// The state with the block number advanced by one.
pub open spec fn advance_block(s: RuntimeView) -> RuntimeView {
    RuntimeView { block_number: (s.block_number + 1) as u32, ..s }
}

/// The state with one more extrinsic noted for `caller`: its nonce rises
/// by one, everything else stays.
pub open spec fn note_nonce(s: RuntimeView, caller: Seq<char>) -> RuntimeView {
    RuntimeView {
        nonces: s.nonces.insert(caller, (system::nonce_in(s.nonces, caller) + 1) as u32),
        ..s
    }
}

/// One extrinsic applied: the caller's nonce rises first, unconditionally,
/// then the call is dispatched.
pub open spec fn apply_extrinsic(s: RuntimeView, e: types::Extrinsic) -> RuntimeView {
    dispatch_state(note_nonce(s, e.caller@), e.caller, e.call)
}

/// A list of extrinsics applied in order.
pub open spec fn apply_extrinsics(s: RuntimeView, es: Seq<types::Extrinsic>) -> RuntimeView
    decreases es.len(),
{
    if es.len() == 0 {
        s
    } else {
        apply_extrinsic(apply_extrinsics(s, es.drop_last()), es.last())
    }
}

/// How many extrinsics in `es` are attributed to `account`.
pub open spec fn count_callers(es: Seq<types::Extrinsic>, account: Seq<char>) -> nat
    decreases es.len(),
{
    if es.len() == 0 {
        0nat
    } else {
        count_callers(es.drop_last(), account) + (if es.last().caller@ == account {
            1nat
        } else {
            0nat
        })
    }
}

/// The runtime: one instance of every module.  The fields are exposed so
/// that an external collaborator (genesis setup, an observer) can reach a
/// module directly, bypassing dispatch.
pub struct Runtime {
    /// The balances module.
    pub balances: balances::Pallet,
    /// The system module.
    pub system: system::Pallet,
    /// The proof-of-existence module.
    pub proof_of_existence: proof_of_existence::Pallet,
}

impl View for Runtime {
    type V = RuntimeView;

    open spec fn view(&self) -> RuntimeView {
        RuntimeView {
            block_number: self.system.spec_block_number(),
            balances: self.balances.balances(),
            nonces: self.system.nonces(),
            claims: self.proof_of_existence.claims(),
        }
    }
}

impl Runtime {
    /// The genesis state: block number zero, every ledger empty, so every
    /// account has balance zero and nonce zero.
    pub fn new() -> (r: Self)
        ensures
            r@.block_number == 0,
            r@.balances == Map::<Seq<char>, u128>::empty(),
            r@.nonces == Map::<Seq<char>, u32>::empty(),
            r@.claims == Map::<Seq<char>, String>::empty(),
            forall|a: Seq<char>| balances::balance_in(r@.balances, a) == 0,
            forall|a: Seq<char>| system::nonce_in(r@.nonces, a) == 0,
    {
        Runtime {
            balances: balances::Pallet::new(),
            system: system::Pallet::new(),
            proof_of_existence: proof_of_existence::Pallet::new(),
        }
    }

    /// Routes a top-level call to the owning module's dispatch and reports
    /// that module's result unchanged.
    pub fn dispatch(&mut self, caller: String, call: RuntimeCall) -> (r: Result<
        (),
        RuntimeError,
    >)
        ensures
            final(self)@ == dispatch_state(old(self)@, caller, call),
            r == dispatch_outcome(old(self)@, caller, call),
    {
        let ghost s0 = self@;
        let ghost gcaller = caller;
        let ghost gcall = call;
        match call {
            RuntimeCall::Balances(c) => {
                let res: Result<(), RuntimeError> = match self.balances.dispatch(caller, c) {
                    Ok(()) => Ok(()),
                    Err(e) => Err(RuntimeError::Balances(e)),
                };
                proof {
                    assert(self@ =~= dispatch_state(s0, gcaller, gcall));
                }
                res
            },
            RuntimeCall::ProofOfExistence(c) => {
                let res: Result<(), RuntimeError> = match self.proof_of_existence.dispatch(
                    caller,
                    c,
                ) {
                    Ok(()) => Ok(()),
                    Err(e) => Err(RuntimeError::ProofOfExistence(e)),
                };
                proof {
                    assert(self@ =~= dispatch_state(s0, gcaller, gcall));
                }
                res
            },
        }
    }

    /// Executes one block.
    ///
    /// The running block counter is advanced first, unconditionally: it is
    /// the runtime's own clock, independent of what the header claims.  A
    /// header whose number is not the advanced counter rejects the whole
    /// block with `BlockNumberMismatch`, leaving every ledger untouched and
    /// the counter advanced.  Otherwise the extrinsics run in order: each
    /// raises its caller's nonce whether its call succeeds or fails, and a
    /// failed call never aborts the block nor touches its neighbours — the
    /// final state is the in-order fold of `apply_extrinsic` over the list.
    ///
    /// The preconditions keep the block counter and every touched nonce
    /// below their machine limits.
    pub fn execute_block(&mut self, block: types::Block) -> (r: Result<(), RuntimeError>)
        requires
            old(self)@.block_number < u32::MAX,
            block.header.block_number == old(self)@.block_number + 1 ==> forall|a: Seq<char>|
                system::nonce_in(old(self)@.nonces, a) + count_callers(block.extrinsic@, a)
                    <= u32::MAX,
        ensures
            final(self)@.block_number == old(self)@.block_number + 1,
            block.header.block_number != old(self)@.block_number + 1 ==> {
                &&& r == Err::<(), RuntimeError>(RuntimeError::BlockNumberMismatch)
                &&& final(self)@.balances == old(self)@.balances
                &&& final(self)@.nonces == old(self)@.nonces
                &&& final(self)@.claims == old(self)@.claims
            },
            block.header.block_number == old(self)@.block_number + 1 ==> {
                &&& r == Ok::<(), RuntimeError>(())
                &&& final(self)@ == apply_extrinsics(advance_block(old(self)@), block.extrinsic@)
            },
    {
        let ghost s0 = self@;
        self.system.increment_block_number();
        let current = self.system.get_block_number();
        if block.header.block_number != current {
            return Err(RuntimeError::BlockNumberMismatch);
        }
        let ghost v1 = self@;
        proof {
            assert(v1 =~= advance_block(s0));
        }

        let mut extrinsics = block.extrinsic;
        let ghost es = extrinsics@;
        let n = extrinsics.len();
        let mut i: usize = 0;
        while i < n
            invariant
                i <= n,
                n == es.len(),
                extrinsics@ == es.skip(i as int),
                self@ == apply_extrinsics(v1, es.take(i as int)),
                forall|a: Seq<char>|
                    system::nonce_in(v1.nonces, a) + count_callers(es, a) <= u32::MAX,
            decreases n - i,
        {
            let e = extrinsics.remove(0);
            proof {
                assert(e == es[i as int]);
                assert(extrinsics@ =~= es.skip(i as int + 1));
                assert(es.take(i as int + 1).drop_last() =~= es.take(i as int));
                assert(es.take(i as int + 1).last() == es[i as int]);
                lemma_count_take_le(es, e.caller@, i as int + 1);
                lemma_nonce_after_extrinsics(v1, es.take(i as int), e.caller@);
            }
            let ghost prev = self@;
            let ghost ge = e;
            self.system.increment_nonce(&e.caller);
            proof {
                assert(self@ =~= note_nonce(prev, ge.caller@));
            }
            let ghost mid = self@;
            let _ = self.dispatch(e.caller, e.call);
            proof {
                assert(self@ == dispatch_state(mid, ge.caller, ge.call));
                assert(self@ == apply_extrinsic(prev, ge));
                assert(apply_extrinsics(v1, es.take(i as int + 1)) == apply_extrinsic(
                    apply_extrinsics(v1, es.take(i as int)),
                    es[i as int],
                ));
            }
            i = i + 1;
        }
        proof {
            assert(es.take(n as int) =~= es);
            lemma_extrinsics_preserve_block_number(v1, es);
        }
        Ok(())
    }
}

/// Dispatch moves only the ledger its call addresses: the block number and
/// the nonce map come through any call unchanged.
pub proof fn lemma_dispatch_state_frame(s: RuntimeView, caller: String, call: RuntimeCall)
    ensures
        dispatch_state(s, caller, call).nonces == s.nonces,
        dispatch_state(s, caller, call).block_number == s.block_number,
{
    match call {
        RuntimeCall::Balances(balances::Call::Transfer { .. }) => {
        },
        RuntimeCall::ProofOfExistence(proof_of_existence::Call::CreateClaim { .. }) => {
        },
        RuntimeCall::ProofOfExistence(proof_of_existence::Call::RevokeClaim { .. }) => {
        },
    }
}

/// A run of extrinsics never moves the block counter: only `execute_block`
/// itself advances it, once per block.
pub proof fn lemma_extrinsics_preserve_block_number(s: RuntimeView, es: Seq<types::Extrinsic>)
    ensures
        apply_extrinsics(s, es).block_number == s.block_number,
    decreases es.len(),
{
    if es.len() == 0 {
    } else {
        lemma_extrinsics_preserve_block_number(s, es.drop_last());
        let t2 = note_nonce(apply_extrinsics(s, es.drop_last()), es.last().caller@);
        lemma_dispatch_state_frame(t2, es.last().caller, es.last().call);
    }
}

/// Nonce monotonicity: after a run of extrinsics, an account's nonce has
/// risen by exactly the number of extrinsics attributed to it, whether
/// their calls succeeded or failed.
pub proof fn lemma_nonce_after_extrinsics(
    s: RuntimeView,
    es: Seq<types::Extrinsic>,
    a: Seq<char>,
)
    requires
        system::nonce_in(s.nonces, a) + count_callers(es, a) <= u32::MAX,
    ensures
        system::nonce_in(apply_extrinsics(s, es).nonces, a) == system::nonce_in(s.nonces, a)
            + count_callers(es, a),
    decreases es.len(),
{
    if es.len() == 0 {
    } else {
        let prefix = es.drop_last();
        let e = es.last();
        lemma_nonce_after_extrinsics(s, prefix, a);
        let t = apply_extrinsics(s, prefix);
        let t2 = note_nonce(t, e.caller@);
        lemma_dispatch_state_frame(t2, e.caller, e.call);
    }
}

/// Nonce monotonicity across an accepted block: the block counter advances
/// first, then the extrinsics run, and an account's nonce afterwards is its
/// nonce before plus the number of the block's extrinsics attributed to it.
pub proof fn lemma_nonce_after_block(s: RuntimeView, es: Seq<types::Extrinsic>, a: Seq<char>)
    requires
        system::nonce_in(s.nonces, a) + count_callers(es, a) <= u32::MAX,
    ensures
        system::nonce_in(apply_extrinsics(advance_block(s), es).nonces, a) == system::nonce_in(
            s.nonces,
            a,
        ) + count_callers(es, a),
{
    lemma_nonce_after_extrinsics(advance_block(s), es, a);
}

/// No account is attributed more extrinsics than a list holds.  A caller
/// of `execute_block` can discharge its nonce bound with this: it suffices
/// that every nonce leaves the block's length of headroom.
pub proof fn lemma_count_callers_le_len(es: Seq<types::Extrinsic>, a: Seq<char>)
    ensures
        count_callers(es, a) <= es.len(),
    decreases es.len(),
{
    if es.len() == 0 {
    } else {
        lemma_count_callers_le_len(es.drop_last(), a);
    }
}

/// The callers counted in a prefix never exceed those counted in the whole
/// list.
pub proof fn lemma_count_take_le(es: Seq<types::Extrinsic>, a: Seq<char>, i: int)
    requires
        0 <= i <= es.len(),
    ensures
        count_callers(es.take(i), a) <= count_callers(es, a),
    decreases es.len() - i,
{
    if i == es.len() {
        assert(es.take(i) =~= es);
    } else {
        lemma_count_take_le(es, a, i + 1);
        assert(es.take(i + 1).drop_last() =~= es.take(i));
        assert(es.take(i + 1).last() == es[i]);
    }
}

} // verus!
