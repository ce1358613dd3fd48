use vstd::prelude::*;
use crate::balances::{self, after_transfer, transfer_outcome};
use crate::proof_of_existence::{self, after_create, after_revoke, create_outcome, revoke_outcome};
use crate::support::{BlockError, DispatchError, DispatchResult};
use crate::system::{self, nonce_bumped, nonce_of, SystemState};
use crate::types::{AccountId, Block, Extrinsic};

verus! {

/// Every call that the runtime can dispatch, by the ledger that handles it.
#[allow(non_camel_case_types)]
pub enum RuntimeCall {
    balances(balances::Call),
    proof_of_existence(proof_of_existence::Call),
}

/// The contents of all three ledgers.
pub struct RuntimeState {
    pub system: SystemState,
    pub balances: Map<Seq<char>, u128>,
    pub claims: Map<Seq<char>, Seq<char>>,
}

/// What dispatching `call` on behalf of `caller` returns.
pub open spec fn dispatch_outcome(s: RuntimeState, caller: Seq<char>, call: RuntimeCall) -> Result<
    (),
    DispatchError,
> {
    match call {
        RuntimeCall::balances(balances::Call::transfer { to, amount }) => transfer_outcome(
            s.balances,
            caller,
            to@,
            amount,
        ),
        RuntimeCall::proof_of_existence(proof_of_existence::Call::create_claim { claim }) => {
            create_outcome(s.claims, claim@)
        },
        RuntimeCall::proof_of_existence(proof_of_existence::Call::revoke_claim { claim }) => {
            revoke_outcome(s.claims, caller, claim@)
        },
    }
}

/// The state after dispatching `call` on behalf of `caller`; a failed call changes nothing.
pub open spec fn dispatched(s: RuntimeState, caller: Seq<char>, call: RuntimeCall) -> RuntimeState {
    match call {
        RuntimeCall::balances(balances::Call::transfer { to, amount }) => RuntimeState {
            balances: after_transfer(s.balances, caller, to@, amount),
            ..s
        },
        RuntimeCall::proof_of_existence(proof_of_existence::Call::create_claim { claim }) => {
            RuntimeState { claims: after_create(s.claims, caller, claim@), ..s }
        },
        RuntimeCall::proof_of_existence(proof_of_existence::Call::revoke_claim { claim }) => {
            RuntimeState { claims: after_revoke(s.claims, caller, claim@), ..s }
        },
    }
}

/// The state once the caller's nonce is counted, before its call is dispatched.
pub open spec fn counted(s: RuntimeState, e: Extrinsic) -> RuntimeState {
    RuntimeState { system: nonce_bumped(s.system, e.caller@), ..s }
}

/// The state after one extrinsic: its caller's nonce is counted whatever the call does.
pub open spec fn apply_extrinsic(s: RuntimeState, e: Extrinsic) -> RuntimeState {
    dispatched(counted(s, e), e.caller@, e.call)
}

/// What one extrinsic's call returns, applied to `s`.
pub open spec fn extrinsic_outcome(s: RuntimeState, e: Extrinsic) -> Result<(), DispatchError> {
    dispatch_outcome(counted(s, e), e.caller@, e.call)
}

/// The state after the extrinsics `es`, in order.
pub open spec fn apply_extrinsics(s: RuntimeState, es: Seq<Extrinsic>) -> RuntimeState
    decreases es.len(),
{
    if es.len() == 0 {
        s
    } else {
        apply_extrinsic(apply_extrinsics(s, es.drop_last()), es.last())
    }
}

/// The state once the block number has advanced, before any extrinsic.
pub open spec fn block_started(s: RuntimeState) -> RuntimeState {
    RuntimeState {
        system: SystemState { block_number: (s.system.block_number + 1) as u32, ..s.system },
        ..s
    }
}

/// Whether `number` is the number that the next block must carry.
pub open spec fn is_next_block(s: RuntimeState, number: u32) -> bool {
    number == s.system.block_number + 1
}

/// Whether every caller's nonce can count all the extrinsics of `es` without overflowing.
pub open spec fn nonces_have_room(s: SystemState, es: Seq<Extrinsic>) -> bool {
    forall|i: int|
        0 <= i < es.len() ==> nonce_of(s.nonces, #[trigger] es[i].caller@) + es.len() <= u32::MAX
}

/// Each extrinsic counts exactly one call for its caller, whether or not the call
/// succeeds.
pub proof fn lemma_extrinsic_counts_nonce(s: RuntimeState, e: Extrinsic)
    requires
        nonce_of(s.system.nonces, e.caller@) < u32::MAX,
    ensures
        nonce_of(apply_extrinsic(s, e).system.nonces, e.caller@) == nonce_of(
            s.system.nonces,
            e.caller@,
        ) + 1,
{
}

/// The runtime: the three ledgers, driven by blocks of extrinsics.
pub struct Runtime {
    pub system: system::Pallet,
    pub balances: balances::Pallet,
    pub proof_of_existence: proof_of_existence::Pallet,
}

impl View for Runtime {
    type V = RuntimeState;

    open spec fn view(&self) -> RuntimeState {
        RuntimeState {
            system: self.system@,
            balances: self.balances@,
            claims: self.proof_of_existence@,
        }
    }
}

impl Runtime {
    pub open spec fn wf(&self) -> bool {
        self.system.wf() && self.balances.wf() && self.proof_of_existence.wf()
    }

    /// A runtime at block zero with empty ledgers.
    pub fn new() -> (r: Self)
        ensures
            r.wf(),
            r@ == (RuntimeState {
                system: SystemState { block_number: 0, nonces: Map::empty() },
                balances: Map::empty(),
                claims: Map::empty(),
            }),
    {
        Runtime {
            system: system::Pallet::new(),
            balances: balances::Pallet::new(),
            proof_of_existence: proof_of_existence::Pallet::new(),
        }
    }

    /// Routes `call` to the ledger operation that it names, acting as `caller`.
    pub fn dispatch(&mut self, caller: &AccountId, call: &RuntimeCall) -> (r: DispatchResult)
        requires
            old(self).wf(),
        ensures
            final(self).wf(),
            r == dispatch_outcome(old(self)@, caller@, *call),
            final(self)@ == dispatched(old(self)@, caller@, *call),
    {
        match call {
            RuntimeCall::balances(c) => self.balances.dispatch(caller, c),
            RuntimeCall::proof_of_existence(c) => self.proof_of_existence.dispatch(caller, c),
        }
    }

    /// Executes `block` and returns what each of its extrinsics' calls returned, in order.
    /// A block whose number is not the next one is rejected, and nothing changes.
    pub fn apply_block(&mut self, block: &Block) -> (r: Result<Vec<DispatchResult>, BlockError>)
        requires
            old(self).wf(),
            is_next_block(old(self)@, block.header.block_number) ==> nonces_have_room(
                old(self)@.system,
                block.extrinsics@,
            ),
        ensures
            final(self).wf(),
            !is_next_block(old(self)@, block.header.block_number) ==> r == Err::<
                Vec<DispatchResult>,
                BlockError,
            >(BlockError::InvalidBlock) && final(self)@ == old(self)@,
            is_next_block(old(self)@, block.header.block_number) ==> r is Ok && final(self)@
                == apply_extrinsics(block_started(old(self)@), block.extrinsics@),
            r matches Ok(results) ==> results@.len() == block.extrinsics@.len() && forall|i: int|
                0 <= i < results@.len() ==> #[trigger] results@[i] == extrinsic_outcome(
                    apply_extrinsics(block_started(old(self)@), block.extrinsics@.take(i)),
                    block.extrinsics@[i],
                ),
    {
        let expected = match self.system.block_number().checked_add(1) {
            Some(n) => n,
            None => return Err(BlockError::InvalidBlock),
        };
        if block.header.block_number != expected {
            return Err(BlockError::InvalidBlock);
        }
        self.system.inc_block_number();
        let ghost start = self@;
        let ghost es = block.extrinsics@;
        assert(start == block_started(old(self)@));
        assert(es.take(0) =~= Seq::<Extrinsic>::empty());
        let mut results: Vec<DispatchResult> = Vec::new();
        let mut i: usize = 0;
        while i < block.extrinsics.len()
            invariant
                self.wf(),
                es == block.extrinsics@,
                nonces_have_room(start.system, es),
                0 <= i <= es.len(),
                self@ == apply_extrinsics(start, es.take(i as int)),
                forall|k: Seq<char>|
                    #[trigger] nonce_of(self@.system.nonces, k) <= nonce_of(start.system.nonces, k)
                        + i,
                results@.len() == i,
                forall|j: int|
                    0 <= j < i ==> #[trigger] results@[j] == extrinsic_outcome(
                        apply_extrinsics(start, es.take(j)),
                        es[j],
                    ),
            decreases es.len() - i,
        {
            let ext = &block.extrinsics[i];
            let ghost before = self@;
            assert(nonce_of(start.system.nonces, es[i as int].caller@) + es.len() <= u32::MAX);
            assert(nonce_of(self@.system.nonces, ext.caller@) <= nonce_of(
                start.system.nonces,
                ext.caller@,
            ) + i);
            self.system.inc_nonce(&ext.caller);
            assert(self@ == counted(before, *ext));
            let res = self.dispatch(&ext.caller, &ext.call);
            results.push(res);
            assert(es.take(i + 1).drop_last() =~= es.take(i as int));
            proof {
                assert forall|k: Seq<char>|
                    #[trigger] nonce_of(self@.system.nonces, k) <= nonce_of(start.system.nonces, k)
                        + i + 1 by {
                    assert(nonce_of(self@.system.nonces, k) <= nonce_of(before.system.nonces, k)
                        + 1);
                }
            }
            i = i + 1;
        }
        assert(es.take(es.len() as int) =~= es);
        Ok(results)
    }

    /// Executes `block`: advances the block number, then applies each extrinsic in
    /// order. A failing call stays local to its extrinsic; only a block whose number is
    /// not the next one is rejected, and then nothing changes.
    pub fn execute_block(&mut self, block: Block) -> (r: Result<(), BlockError>)
        requires
            old(self).wf(),
            is_next_block(old(self)@, block.header.block_number) ==> nonces_have_room(
                old(self)@.system,
                block.extrinsics@,
            ),
        ensures
            final(self).wf(),
            !is_next_block(old(self)@, block.header.block_number) ==> r == Err::<(), BlockError>(
                BlockError::InvalidBlock,
            ) && final(self)@ == old(self)@,
            is_next_block(old(self)@, block.header.block_number) ==> r == Ok::<(), BlockError>(())
                && final(self)@ == apply_extrinsics(block_started(old(self)@), block.extrinsics@),
    {
        match self.apply_block(&block) {
            Ok(_) => Ok(()),
            Err(e) => Err(e),
        }
    }
}

} // verus!
