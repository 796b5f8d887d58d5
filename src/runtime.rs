//! The runtime: the composition root that owns one instance of each pallet,
//! routes calls to them and executes blocks.
use vstd::prelude::*;

use crate::balances;
use crate::proof_of_existence;
use crate::support::{Dispatch, DispatchError, DispatchResult, Extrinsic};
use crate::system::{self, inc_nonce_spec, SystemState};
use crate::types::{AccountId, Balance, Block, BlockNumber};

verus! {

/// A call to any pallet of the runtime, tagged by the pallet that owns it.
#[derive(Debug)]
pub enum RuntimeCall {
    Balances(balances::Call),
    Poe(proof_of_existence::Call),
}

/// An extrinsic of a block that failed, with where it stood.
#[derive(Debug, Clone, Copy, PartialEq, Eq, Structural)]
pub struct ExtrinsicFailure {
    pub block_number: BlockNumber,
    pub index: usize,
    pub error: DispatchError,
}

/// What the runtime holds: the state of each of its pallets.
pub struct RuntimeState {
    pub system: SystemState,
    pub balances: Map<Seq<char>, Balance>,
    pub claims: Map<Seq<char>, Seq<char>>,
}

/// The state after routing `call` from `caller` to its pallet, and the
/// outcome, which is the pallet's own. Only that pallet's state changes.
pub open spec fn dispatch_spec(s: RuntimeState, caller: Seq<char>, call: RuntimeCall) -> (
    RuntimeState,
    DispatchResult,
) {
    match call {
        RuntimeCall::Balances(balances::Call::Transfer { to, amount }) => {
            let (ledger, r) = balances::transfer_spec(s.balances, caller, to@, amount);
            (RuntimeState { balances: ledger, ..s }, r)
        },
        RuntimeCall::Poe(proof_of_existence::Call::CreateClaim { claim }) => {
            let (claims, r) = proof_of_existence::create_claim_spec(s.claims, caller, claim@);
            (RuntimeState { claims, ..s }, r)
        },
        RuntimeCall::Poe(proof_of_existence::Call::RevokeClaim { claim }) => {
            let (claims, r) = proof_of_existence::revoke_claim_spec(s.claims, caller, claim@);
            (RuntimeState { claims, ..s }, r)
        },
    }
}

/// The state after applying one extrinsic, and its outcome: the caller's
/// nonce is bumped first, whatever the call then does; when the bump fails
/// the call is not made.
pub open spec fn apply_extrinsic_spec(s: RuntimeState, caller: Seq<char>, call: RuntimeCall) -> (
    RuntimeState,
    DispatchResult,
) {
    let (system, bumped) = inc_nonce_spec(s.system, caller);
    let s1 = RuntimeState { system, ..s };
    match bumped {
        Err(e) => (s1, Err(e)),
        Ok(()) => dispatch_spec(s1, caller, call),
    }
}

/// The state after applying `extrinsics` in order, and the failures among
/// them, in order, each with `block_number` and its index.
pub open spec fn apply_extrinsics_spec(
    s: RuntimeState,
    block_number: BlockNumber,
    extrinsics: Seq<Extrinsic<AccountId, RuntimeCall>>,
) -> (RuntimeState, Seq<ExtrinsicFailure>)
    decreases extrinsics.len(),
{
    if extrinsics.len() == 0 {
        (s, Seq::empty())
    } else {
        let (s1, failures) = apply_extrinsics_spec(s, block_number, extrinsics.drop_last());
        let last = extrinsics.last();
        let (s2, r) = apply_extrinsic_spec(s1, last.caller@, last.call);
        match r {
            Ok(()) => (s2, failures),
            Err(e) => (
                s2,
                failures.push(
                    ExtrinsicFailure {
                        block_number,
                        index: (extrinsics.len() - 1) as usize,
                        error: e,
                    },
                ),
            ),
        }
    }
}

/// Whether a block numbered `block_number` may follow the state `s`.
pub open spec fn is_next_block(s: RuntimeState, block_number: BlockNumber) -> bool {
    s.system.block_number < BlockNumber::MAX && block_number == s.system.block_number + 1
}

/// The state at the start of block `block_number`: only the block number
/// has changed.
pub open spec fn advance_block(s: RuntimeState, block_number: BlockNumber) -> RuntimeState {
    RuntimeState { system: SystemState { block_number, ..s.system }, ..s }
}

/// The state after executing a block, and its outcome. A block whose number
/// does not follow the current one is rejected with `BlockNumberMismatch` and
/// changes nothing; otherwise the block number advances, every extrinsic is
/// applied in order, and the block succeeds with the list of failed ones.
pub open spec fn execute_block_spec(
    s: RuntimeState,
    block_number: BlockNumber,
    extrinsics: Seq<Extrinsic<AccountId, RuntimeCall>>,
) -> (RuntimeState, Result<Seq<ExtrinsicFailure>, DispatchError>) {
    if !is_next_block(s, block_number) {
        (s, Err(DispatchError::BlockNumberMismatch))
    } else {
        let (s1, failures) = apply_extrinsics_spec(
            advance_block(s, block_number),
            block_number,
            extrinsics,
        );
        (s1, Ok(failures))
    }
}

/// How many of `extrinsics` were made on behalf of `who`.
pub open spec fn authored_count(extrinsics: Seq<Extrinsic<AccountId, RuntimeCall>>, who: Seq<char>) -> nat
    decreases extrinsics.len(),
{
    if extrinsics.len() == 0 {
        0
    } else {
        authored_count(extrinsics.drop_last(), who) + if extrinsics.last().caller@ == who {
            1nat
        } else {
            0nat
        }
    }
}

/// Routing a call never touches the system pallet.
proof fn lemma_dispatch_keeps_system(s: RuntimeState, caller: Seq<char>, call: RuntimeCall)
    ensures
        dispatch_spec(s, caller, call).0.system == s.system,
{
}

/// Applying extrinsics bumps the nonce of `who` once for each extrinsic it
/// made, as long as the nonce stays within its range.
proof fn lemma_apply_extrinsics_nonce(
    s: RuntimeState,
    block_number: BlockNumber,
    extrinsics: Seq<Extrinsic<AccountId, RuntimeCall>>,
    who: Seq<char>,
)
    requires
        system::nonce_in(s.system.nonces, who) + authored_count(extrinsics, who) <= u32::MAX,
    ensures
        system::nonce_in(apply_extrinsics_spec(s, block_number, extrinsics).0.system.nonces, who)
            == system::nonce_in(s.system.nonces, who) + authored_count(extrinsics, who),
    decreases extrinsics.len(),
{
    if extrinsics.len() > 0 {
        lemma_apply_extrinsics_nonce(s, block_number, extrinsics.drop_last(), who);
        let s1 = apply_extrinsics_spec(s, block_number, extrinsics.drop_last()).0;
        let last = extrinsics.last();
        let (system, bumped) = inc_nonce_spec(s1.system, last.caller@);
        lemma_dispatch_keeps_system(RuntimeState { system, ..s1 }, last.caller@, last.call);
    }
}

/// Nonce monotonicity: after a block is executed, the nonce of every account
/// has gone up by the number of the block's extrinsics that it made, whether
/// they succeeded or failed, as long as the nonce stays within its range.
pub proof fn lemma_nonce_counts_extrinsics(
    s: RuntimeState,
    block_number: BlockNumber,
    extrinsics: Seq<Extrinsic<AccountId, RuntimeCall>>,
    who: Seq<char>,
)
    requires
        is_next_block(s, block_number),
        system::nonce_in(s.system.nonces, who) + authored_count(extrinsics, who) <= u32::MAX,
    ensures
        execute_block_spec(s, block_number, extrinsics).1 is Ok,
        system::nonce_in(execute_block_spec(s, block_number, extrinsics).0.system.nonces, who)
            == system::nonce_in(s.system.nonces, who) + authored_count(extrinsics, who),
{
    lemma_apply_extrinsics_nonce(advance_block(s, block_number), block_number, extrinsics, who);
}

/// Block ordering: a block whose number is not the current one plus one is
/// rejected with `BlockNumberMismatch`, and no state changes.
pub proof fn lemma_misordered_block_rejected(
    s: RuntimeState,
    block_number: BlockNumber,
    extrinsics: Seq<Extrinsic<AccountId, RuntimeCall>>,
)
    requires
        block_number != s.system.block_number + 1,
    ensures
        execute_block_spec(s, block_number, extrinsics) == (s, Err::<Seq<ExtrinsicFailure>, DispatchError>(
            DispatchError::BlockNumberMismatch,
        )),
{
}

/// Extrinsic isolation: in a block of a failing extrinsic followed by a
/// succeeding one, the failure changes no pallet but the caller's nonce, the
/// second extrinsic is applied in full on top of that, and the block
/// succeeds with the first as its one failure.
pub proof fn lemma_failed_extrinsic_isolated(
    s: RuntimeState,
    block_number: BlockNumber,
    first: Extrinsic<AccountId, RuntimeCall>,
    second: Extrinsic<AccountId, RuntimeCall>,
)
    requires
        is_next_block(s, block_number),
        apply_extrinsic_spec(advance_block(s, block_number), first.caller@, first.call).1 is Err,
        apply_extrinsic_spec(
            apply_extrinsic_spec(advance_block(s, block_number), first.caller@, first.call).0,
            second.caller@,
            second.call,
        ).1 is Ok,
    ensures
        ({
            let start = advance_block(s, block_number);
            let (after_first, r) = apply_extrinsic_spec(start, first.caller@, first.call);
            &&& after_first == (RuntimeState {
                system: inc_nonce_spec(start.system, first.caller@).0,
                ..start
            })
            &&& execute_block_spec(s, block_number, seq![first, second]) == (
                apply_extrinsic_spec(after_first, second.caller@, second.call).0,
                Ok::<Seq<ExtrinsicFailure>, DispatchError>(
                    seq![ExtrinsicFailure { block_number, index: 0, error: r->Err_0 }],
                ),
            )
        }),
{
    reveal_with_fuel(apply_extrinsics_spec, 3);
    let exts = seq![first, second];
    assert(seq![first].drop_last() =~= Seq::<Extrinsic<AccountId, RuntimeCall>>::empty());
    assert(exts.drop_last() =~= seq![first]);
    assert(exts.drop_last().drop_last() =~= Seq::<Extrinsic<AccountId, RuntimeCall>>::empty());
    let failures = apply_extrinsics_spec(advance_block(s, block_number), block_number, seq![first]).1;
    assert(failures =~= seq![
        ExtrinsicFailure {
            block_number,
            index: 0,
            error: apply_extrinsic_spec(advance_block(s, block_number), first.caller@, first.call).1->Err_0,
        },
    ]);
}

/// The composition root: one instance of each pallet, reached only through
/// its accessors, `set_balance` at genesis, dispatch and block execution.
#[derive(Debug)]
pub struct Runtime {
    balances: balances::Pallet,
    system: system::Pallet,
    poe: proof_of_existence::Pallet,
}

impl View for Runtime {
    type V = RuntimeState;

    closed spec fn view(&self) -> RuntimeState {
        RuntimeState { system: self.system@, balances: self.balances@, claims: self.poe@ }
    }
}

impl Runtime {
    /// A runtime at block zero with empty pallets.
    pub fn new() -> (r: Self)
        ensures
            r@.system.block_number == 0,
            r@.system.nonces == Map::<Seq<char>, u32>::empty(),
            r@.balances == Map::<Seq<char>, Balance>::empty(),
            r@.claims == Map::<Seq<char>, Seq<char>>::empty(),
    {
        Runtime {
            balances: balances::Pallet::new(),
            system: system::Pallet::new(),
            poe: proof_of_existence::Pallet::new(),
        }
    }

    /// The balances pallet, to read.
    pub fn balances(&self) -> (r: &balances::Pallet)
        ensures
            r@ == self@.balances,
    {
        &self.balances
    }

    /// The system pallet, to read.
    pub fn system(&self) -> (r: &system::Pallet)
        ensures
            r@ == self@.system,
    {
        &self.system
    }

    /// The proof-of-existence pallet, to read.
    pub fn poe(&self) -> (r: &proof_of_existence::Pallet)
        ensures
            r@ == self@.claims,
    {
        &self.poe
    }

    /// Endows `who` with `amount`, outside any block; meant for genesis.
    pub fn set_balance(&mut self, who: AccountId, amount: Balance)
        ensures
            final(self)@ == (RuntimeState { balances: old(self)@.balances.insert(who@, amount), ..old(self)@ }),
    {
        self.balances.set_balance(who, amount);
    }

    /// Executes `block`: checks that its number follows the current one,
    /// advances the block number, then applies each extrinsic in order. A
    /// failed extrinsic is recorded and execution goes on with the next.
    pub fn execute_block(&mut self, block: Block) -> (r: Result<Vec<ExtrinsicFailure>, DispatchError>)
        ensures
            execute_block_spec(old(self)@, block.header.block_number, block.extrinsics@) == (
                final(self)@,
                match r {
                    Ok(failures) => Ok(failures@),
                    Err(e) => Err(e),
                },
            ),
    {
        let current = self.system.block_number();
        let number = block.header.block_number;
        if current == BlockNumber::MAX || number != current + 1 {
            return Err(DispatchError::BlockNumberMismatch);
        }
        self.system.inc_block_number();
        let ghost start = self@;
        let ghost all = block.extrinsics@;
        let mut failures: Vec<ExtrinsicFailure> = Vec::new();
        let count: usize = block.extrinsics.len();
        let mut i: usize = 0;
        assert(all.subrange(0, 0) =~= Seq::<Extrinsic<AccountId, RuntimeCall>>::empty());
        for ext in it: block.extrinsics.into_iter()
            invariant
                it.seq() == all,
                i == it.index(),
                all.len() == count,
                (self@, failures@) == apply_extrinsics_spec(start, number, all.subrange(0, it.index() as int)),
        {
            let Extrinsic { caller, call } = ext;
            assert(all.subrange(0, i + 1).drop_last() =~= all.subrange(0, i as int));
            let outcome = match self.system.inc_nonce(&caller) {
                Ok(()) => self.dispatch(caller, call),
                Err(e) => Err(e),
            };
            if let Err(e) = outcome {
                failures.push(ExtrinsicFailure { block_number: number, index: i, error: e });
            }
            i = i + 1;
        }
        assert(all.subrange(0, all.len() as int) =~= all);
        Ok(failures)
    }
}

impl Dispatch for Runtime {
    type Caller = AccountId;
    type Call = RuntimeCall;

    /// Routes `call` to the pallet that owns it; the pallet's outcome is
    /// returned unchanged.
    fn dispatch(&mut self, caller: AccountId, call: RuntimeCall) -> (r: DispatchResult)
        ensures
            (final(self)@, r) == dispatch_spec(old(self)@, caller@, call),
    {
        match call {
            RuntimeCall::Balances(call) => self.balances.dispatch(caller, call),
            RuntimeCall::Poe(call) => self.poe.dispatch(caller, call),
        }
    }
}

} // verus!
