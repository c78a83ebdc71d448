//! The balance ledger: a balance per account and checked transfers between accounts.
use vstd::prelude::*;
use crate::store::StringMap;
use crate::support::{DispatchError, DispatchResult};

verus! {

/// An amount of funds.
pub type Balance = u128;

/// The balance of `who` in `balances`: an account without an entry holds nothing.
pub open spec fn balance_of(balances: Map<Seq<char>, Balance>, who: Seq<char>) -> int {
    if balances.contains_key(who) {
        balances[who] as int
    } else {
        0
    }
}

/// What a transfer of `amount` from `caller` to `to` does to `balances`, and
/// what it returns. The debit is checked first; the credit is then computed on
/// the debited balances, so that a transfer to oneself changes nothing.
pub open spec fn transfer_outcome(
    balances: Map<Seq<char>, Balance>,
    caller: Seq<char>,
    to: Seq<char>,
    amount: Balance,
) -> (Map<Seq<char>, Balance>, DispatchResult) {
    if amount > balance_of(balances, caller) {
        (balances, Err(DispatchError::InsufficientBalance))
    } else {
        let debited = balances.insert(caller, (balance_of(balances, caller) - amount) as Balance);
        if balance_of(debited, to) + amount > Balance::MAX {
            (balances, Err(DispatchError::Overflow))
        } else {
            (debited.insert(to, (balance_of(debited, to) + amount) as Balance), Ok(()))
        }
    }
}

/// The sum of all balances of a finite ledger.
pub open spec fn total(balances: Map<Seq<char>, Balance>) -> int
    decreases balances.dom().len(),
    when balances.dom().finite()
{
    if exists|k: Seq<char>| balances.dom().contains(k) {
        let k = choose|k: Seq<char>| balances.dom().contains(k);
        balances[k] as int + total(balances.remove(k))
    } else {
        0
    }
}

/// The total of a ledger is the balance of any one account plus the total of the others.
pub proof fn lemma_total_split(balances: Map<Seq<char>, Balance>, who: Seq<char>)
    requires
        balances.dom().finite(),
    ensures
        total(balances) == balance_of(balances, who) + total(balances.remove(who)),
    decreases balances.dom().len(),
{
    if !balances.contains_key(who) {
        assert(balances.remove(who) =~= balances);
    } else {
        let k = choose|k: Seq<char>| balances.dom().contains(k);
        if k != who {
            lemma_total_split(balances.remove(k), who);
            lemma_total_split(balances.remove(who), k);
            assert(balances.remove(k).remove(who) =~= balances.remove(who).remove(k));
        }
    }
}

/// Setting the balance of `who` to `amount` changes the total by the difference.
pub proof fn lemma_total_insert(balances: Map<Seq<char>, Balance>, who: Seq<char>, amount: Balance)
    requires
        balances.dom().finite(),
    ensures
        total(balances.insert(who, amount)) == total(balances) - balance_of(balances, who) + amount,
{
    lemma_total_split(balances, who);
    lemma_total_split(balances.insert(who, amount), who);
    assert(balances.insert(who, amount).remove(who) =~= balances.remove(who));
}

/// A successful transfer between two accounts moves exactly `amount` from the
/// caller to the receiver, leaves every other account as it was, and keeps the
/// total of all balances.
pub proof fn lemma_transfer_conserves_total(
    balances: Map<Seq<char>, Balance>,
    caller: Seq<char>,
    to: Seq<char>,
    amount: Balance,
)
    requires
        balances.dom().finite(),
        caller != to,
        transfer_outcome(balances, caller, to, amount).1 is Ok,
    ensures
        ({
            let after = transfer_outcome(balances, caller, to, amount).0;
            &&& balance_of(after, caller) == balance_of(balances, caller) - amount
            &&& balance_of(after, to) == balance_of(balances, to) + amount
            &&& forall|a: Seq<char>| a != caller && a != to ==> #[trigger] balance_of(after, a)
                == balance_of(balances, a)
            &&& total(after) == total(balances)
        }),
{
    let debited = balances.insert(caller, (balance_of(balances, caller) - amount) as Balance);
    lemma_total_insert(balances, caller, (balance_of(balances, caller) - amount) as Balance);
    lemma_total_insert(debited, to, (balance_of(debited, to) + amount) as Balance);
}

/// A transfer of more than the caller holds fails with `InsufficientBalance`,
/// whatever the receiver holds. A transfer to another account that the caller
/// can afford, but that would lift the receiver past the largest balance,
/// fails with `Overflow`. Either failure leaves every balance as it was.
pub proof fn lemma_transfer_failures(
    balances: Map<Seq<char>, Balance>,
    caller: Seq<char>,
    to: Seq<char>,
    amount: Balance,
)
    ensures
        amount > balance_of(balances, caller) ==> transfer_outcome(balances, caller, to, amount)
            == (balances, Err::<(), DispatchError>(DispatchError::InsufficientBalance)),
        amount <= balance_of(balances, caller) && caller != to && balance_of(balances, to)
            + amount > Balance::MAX ==> transfer_outcome(balances, caller, to, amount) == (
            balances,
            Err::<(), DispatchError>(DispatchError::Overflow),
        ),
        transfer_outcome(balances, caller, to, amount).1 is Err ==> transfer_outcome(
            balances,
            caller,
            to,
            amount,
        ).0 == balances,
{
}

/// A call that the ledger dispatches.
pub enum Call {
    /// Moves `amount` from the caller to `to`.
    Transfer { to: String, amount: Balance },
}

/// The balance ledger.
pub struct Pallet {
    balances: StringMap<Balance>,
}

impl View for Pallet {
    type V = Map<Seq<char>, Balance>;

    closed spec fn view(&self) -> Map<Seq<char>, Balance> {
        self.balances@
    }
}

impl Pallet {
    /// The stored balances are a well-formed, finite map.
    pub closed spec fn wf(&self) -> bool {
        &&& self.balances.wf()
        &&& self.balances@.dom().finite()
    }

    /// An empty ledger, in which every account holds nothing.
    pub fn new() -> (r: Self)
        ensures
            r.wf(),
            r@ == Map::<Seq<char>, Balance>::empty(),
            forall|a: Seq<char>| #[trigger] balance_of(r@, a) == 0,
    {
        Pallet { balances: StringMap::new() }
    }

    /// Sets the balance of `who` to `amount`, whatever it was.
    pub fn set_balance(&mut self, who: &String, amount: Balance)
        requires
            old(self).wf(),
        ensures
            final(self).wf(),
            final(self)@ == old(self)@.insert(who@, amount),
    {
        self.balances.insert(who.clone(), amount);
    }

    /// The balance of `who`.
    pub fn balance(&self, who: &String) -> (r: Balance)
        requires
            self.wf(),
        ensures
            r == balance_of(self@, who@),
    {
        match self.balances.get(who) {
            Some(b) => *b,
            None => 0,
        }
    }

    /// Moves `amount` from `caller` to `to`. Fails with `InsufficientBalance`
    /// when the caller holds less than `amount`, else with `Overflow` when the
    /// receiver's balance would pass the largest balance; a failed transfer
    /// changes nothing.
    pub fn transfer(&mut self, caller: String, to: String, amount: Balance) -> (r: DispatchResult)
        requires
            old(self).wf(),
        ensures
            final(self).wf(),
            (final(self)@, r) == transfer_outcome(old(self)@, caller@, to@, amount),
    {
        let caller_balance = self.balance(&caller);
        let new_caller_balance = match caller_balance.checked_sub(amount) {
            Some(b) => b,
            None => return Err(DispatchError::InsufficientBalance),
        };
        let to_balance = if to == caller {
            new_caller_balance
        } else {
            self.balance(&to)
        };
        let new_to_balance = match to_balance.checked_add(amount) {
            Some(b) => b,
            None => return Err(DispatchError::Overflow),
        };
        self.balances.insert(caller, new_caller_balance);
        self.balances.insert(to, new_to_balance);
        Ok(())
    }

    /// Runs `call` on behalf of `caller`.
    pub fn dispatch(&mut self, caller: String, call: Call) -> (r: DispatchResult)
        requires
            old(self).wf(),
        ensures
            final(self).wf(),
            match call {
                Call::Transfer { to, amount } => (final(self)@, r) == transfer_outcome(
                    old(self)@,
                    caller@,
                    to@,
                    amount,
                ),
            },
    {
        match call {
            Call::Transfer { to, amount } => self.transfer(caller, to, amount),
        }
    }
}

} // verus!
