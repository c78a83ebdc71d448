//! The runtime: the three pallets behind one dispatcher, and block execution.
use vstd::prelude::*;
use crate::balances::{self, transfer_outcome, Balance};
use crate::proof_of_existence::{self, create_claim_outcome, revoke_claim_outcome};
use crate::support::{BlockError, DispatchResult};
use crate::system::{self, nonce_of, BlockNumber, Nonce};

verus! {

/// A call to any pallet of the runtime.
pub enum RuntimeCall {
    Balances(balances::Call),
    ProofOfExistence(proof_of_existence::Call),
}

/// One call submitted by an account.
pub struct Extrinsic {
    pub caller: String,
    pub call: RuntimeCall,
}

/// What a block states about itself.
pub struct Header {
    pub block_number: BlockNumber,
}

/// A header and the extrinsics to apply, in order.
pub struct Block {
    pub header: Header,
    pub extrinsics: Vec<Extrinsic>,
}

/// What running `call` for `caller` does to the balances and the claims, and
/// what it returns.
pub open spec fn call_outcome(
    balances: Map<Seq<char>, Balance>,
    claims: Map<Seq<char>, Seq<char>>,
    caller: Seq<char>,
    call: RuntimeCall,
) -> (Map<Seq<char>, Balance>, Map<Seq<char>, Seq<char>>, DispatchResult) {
    match call {
        RuntimeCall::Balances(balances::Call::Transfer { to, amount }) => {
            let (b, r) = transfer_outcome(balances, caller, to@, amount);
            (b, claims, r)
        },
        RuntimeCall::ProofOfExistence(proof_of_existence::Call::CreateClaim { claim }) => {
            let (c, r) = create_claim_outcome(claims, caller, claim@);
            (balances, c, r)
        },
        RuntimeCall::ProofOfExistence(proof_of_existence::Call::RevokeClaim { claim }) => {
            let (c, r) = revoke_claim_outcome(claims, caller, claim@);
            (balances, c, r)
        },
    }
}

/// Runs `extrinsics` in order from the given balances and claims, going on
/// after a failed call; gives the final balances and claims and the outcome
/// of each call.
pub open spec fn run_extrinsics(
    balances: Map<Seq<char>, Balance>,
    claims: Map<Seq<char>, Seq<char>>,
    extrinsics: Seq<Extrinsic>,
) -> (Map<Seq<char>, Balance>, Map<Seq<char>, Seq<char>>, Seq<DispatchResult>)
    decreases extrinsics.len(),
{
    if extrinsics.len() == 0 {
        (balances, claims, Seq::empty())
    } else {
        let (b, c, outcomes) = run_extrinsics(balances, claims, extrinsics.drop_last());
        let last = extrinsics.last();
        let (b2, c2, r) = call_outcome(b, c, last.caller@, last.call);
        (b2, c2, outcomes.push(r))
    }
}

/// How many of `extrinsics` `who` submitted.
pub open spec fn calls_by(extrinsics: Seq<Extrinsic>, who: Seq<char>) -> nat
    decreases extrinsics.len(),
{
    if extrinsics.len() == 0 {
        0
    } else {
        calls_by(extrinsics.drop_last(), who) + if extrinsics.last().caller@ == who {
            1nat
        } else {
            0nat
        }
    }
}

/// A prefix of a list of extrinsics holds no more calls by an account than the whole.
pub proof fn lemma_calls_by_prefix(extrinsics: Seq<Extrinsic>, n: int, who: Seq<char>)
    requires
        0 <= n <= extrinsics.len(),
    ensures
        calls_by(extrinsics.take(n), who) <= calls_by(extrinsics, who),
    decreases extrinsics.len(),
{
    if n == extrinsics.len() {
        assert(extrinsics.take(n) =~= extrinsics);
    } else {
        lemma_calls_by_prefix(extrinsics.drop_last(), n, who);
        assert(extrinsics.drop_last().take(n) =~= extrinsics.take(n));
    }
}

/// An account that submits none of `extrinsics` makes no call in them, so a
/// block of them leaves its nonce as it was.
pub proof fn lemma_calls_by_absent(extrinsics: Seq<Extrinsic>, who: Seq<char>)
    requires
        forall|i: int| 0 <= i < extrinsics.len() ==> (#[trigger] extrinsics[i]).caller@ != who,
    ensures
        calls_by(extrinsics, who) == 0,
    decreases extrinsics.len(),
{
    if extrinsics.len() > 0 {
        let rest = extrinsics.drop_last();
        assert forall|i: int| 0 <= i < rest.len() implies (#[trigger] rest[i]).caller@ != who by {
            assert(rest[i] == extrinsics[i]);
        }
        lemma_calls_by_absent(rest, who);
    }
}

/// The runtime: an account registry, a ledger and a claim registry.
pub struct Runtime {
    pub balances: balances::Pallet,
    pub system: system::Pallet,
    pub proof_of_existence: proof_of_existence::Pallet,
}

impl Runtime {
    /// Each pallet is well formed.
    pub open spec fn wf(&self) -> bool {
        &&& self.balances.wf()
        &&& self.system.wf()
        &&& self.proof_of_existence.wf()
    }

    /// A runtime at block zero, with no balances, nonces or claims.
    pub fn new() -> (r: Self)
        ensures
            r.wf(),
            r.system.block_number_spec() == 0,
            r.system.nonces() == Map::<Seq<char>, Nonce>::empty(),
            r.balances@ == Map::<Seq<char>, Balance>::empty(),
            r.proof_of_existence@ == Map::<Seq<char>, Seq<char>>::empty(),
    {
        Runtime {
            balances: balances::Pallet::new(),
            system: system::Pallet::new(),
            proof_of_existence: proof_of_existence::Pallet::new(),
        }
    }

    /// Routes `call` to the pallet it belongs to, on behalf of `caller`, and
    /// returns that pallet's result.
    pub fn dispatch(&mut self, caller: String, call: RuntimeCall) -> (r: DispatchResult)
        requires
            old(self).wf(),
        ensures
            final(self).wf(),
            final(self).system == old(self).system,
            (final(self).balances@, final(self).proof_of_existence@, r) == call_outcome(
                old(self).balances@,
                old(self).proof_of_existence@,
                caller@,
                call,
            ),
    {
        match call {
            RuntimeCall::Balances(c) => self.balances.dispatch(caller, c),
            RuntimeCall::ProofOfExistence(c) => self.proof_of_existence.dispatch(caller, c),
        }
    }

    /// Executes `block`. The block number always moves on by one. Where the
    /// header does not name that new number the block fails with
    /// `BlockNumberMismatch` and no extrinsic runs. Otherwise each extrinsic
    /// counts one call by its caller and is then dispatched, in order; a failed
    /// call does not stop the block. The outcome of each call is returned.
    pub fn execute_block(&mut self, block: Block) -> (r: Result<Vec<DispatchResult>, BlockError>)
        requires
            old(self).wf(),
            old(self).system.block_number_spec() < BlockNumber::MAX,
            block.header.block_number == old(self).system.block_number_spec() + 1 ==> forall|
                who: Seq<char>,
            |
                nonce_of(old(self).system.nonces(), who) + #[trigger] calls_by(
                    block.extrinsics@,
                    who,
                ) <= Nonce::MAX,
        ensures
            final(self).wf(),
            final(self).system.block_number_spec() == old(self).system.block_number_spec() + 1,
            block.header.block_number != final(self).system.block_number_spec() ==> {
                &&& r == Err::<Vec<DispatchResult>, BlockError>(BlockError::BlockNumberMismatch)
                &&& final(self).system.nonces() == old(self).system.nonces()
                &&& final(self).balances@ == old(self).balances@
                &&& final(self).proof_of_existence@ == old(self).proof_of_existence@
            },
            block.header.block_number == final(self).system.block_number_spec() ==> {
                let (b, c, outcomes) = run_extrinsics(
                    old(self).balances@,
                    old(self).proof_of_existence@,
                    block.extrinsics@,
                );
                &&& r is Ok
                &&& r->Ok_0@ == outcomes
                &&& final(self).balances@ == b
                &&& final(self).proof_of_existence@ == c
                &&& forall|who: Seq<char>| #[trigger]
                    nonce_of(final(self).system.nonces(), who) == nonce_of(
                        old(self).system.nonces(),
                        who,
                    ) + calls_by(block.extrinsics@, who)
            },
    {
        self.system.inc_block_number();
        if block.header.block_number != self.system.block_number() {
            return Err(BlockError::BlockNumberMismatch);
        }
        let ghost extrinsics = block.extrinsics@;
        let ghost start_balances = self.balances@;
        let ghost start_claims = self.proof_of_existence@;
        let ghost start_nonces = self.system.nonces();
        let mut outcomes: Vec<DispatchResult> = Vec::new();
        for extrinsic in it: block.extrinsics.into_iter()
            invariant
                it.seq() == extrinsics,
                self.wf(),
                self.system.block_number_spec() == block.header.block_number,
                forall|who: Seq<char>|
                    nonce_of(start_nonces, who) + #[trigger] calls_by(extrinsics, who)
                        <= Nonce::MAX,
                ({
                    let (b, c, o) = run_extrinsics(
                        start_balances,
                        start_claims,
                        extrinsics.take(it.index()),
                    );
                    &&& self.balances@ == b
                    &&& self.proof_of_existence@ == c
                    &&& outcomes@ == o
                }),
                forall|who: Seq<char>| #[trigger]
                    nonce_of(self.system.nonces(), who) == nonce_of(start_nonces, who) + calls_by(
                        extrinsics.take(it.index()),
                        who,
                    ),
        {
            let ghost i = it.index();
            let ghost before = self.system.nonces();
            assert(extrinsics.take(i + 1).drop_last() =~= extrinsics.take(i));
            assert(extrinsics[i] == extrinsic);
            proof {
                lemma_calls_by_prefix(extrinsics, i + 1, extrinsic.caller@);
            }
            let Extrinsic { caller, call } = extrinsic;
            self.system.inc_nonce(&caller);
            assert forall|who: Seq<char>| #[trigger]
                nonce_of(self.system.nonces(), who) == nonce_of(start_nonces, who) + calls_by(
                    extrinsics.take(i + 1),
                    who,
                ) by {
                assert(nonce_of(before, who) == nonce_of(start_nonces, who) + calls_by(
                    extrinsics.take(i),
                    who,
                ));
            }
            let outcome = self.dispatch(caller, call);
            outcomes.push(outcome);
        }
        assert(extrinsics.take(extrinsics.len() as int) =~= extrinsics);
        Ok(outcomes)
    }
}

} // verus!
