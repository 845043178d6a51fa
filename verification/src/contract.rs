//! The ledger state: balances, total supply and locked reserve, with the
//! mutations that keep them consistent.

use crate::accounts::{
    all_positive, balance_in, entries_map, entries_valid, lemma_balance_le_total,
    lemma_prefix_sums, lemma_total_entries, lemma_total_insert, sum_balances, total, Account,
    Accounts,
};
use crate::error::ContractError;
use crate::metadata::{TokenMetadata, TOKEN_DECIMAL};
use vstd::prelude::*;

verus! {

/// The token contract: the balance mapping, the total supply of the token,
/// the reserve locked behind it, and the token's descriptive record.
pub struct Contract {
    accounts: Accounts,
    total_supply: u128,
    lzr_locked: u128,
    owner_id: String,
    metadata: TokenMetadata,
}

/// The contract as mathematical values.
pub struct ContractView {
    /// The balance of every account that holds tokens.
    pub balances: Map<Seq<char>, nat>,
    /// The number of tokens that exist.
    pub total_supply: nat,
    /// The reserve currency locked behind the tokens.
    pub reserve_locked: nat,
    /// The account the contract was created for.
    pub owner_id: Seq<char>,
    /// The descriptive record of the token.
    pub metadata: TokenMetadata,
}

/// The contract taken apart, as it is stored: the entries of the balance
/// mapping, the two totals, the owner and the token's record.
pub struct ContractParts {
    pub accounts: Vec<Account>,
    pub total_supply: u128,
    pub lzr_locked: u128,
    pub owner_id: String,
    pub metadata: TokenMetadata,
}

impl ContractParts {
    /// The parts make up a contract: the entries are valid, their balances
    /// sum up to the total supply, and the record is valid.
    pub open spec fn valid(self) -> bool {
        &&& entries_valid(self.accounts@)
        &&& sum_balances(self.accounts@) == self.total_supply
        &&& self.metadata.valid()
    }

    /// The contract that the parts make up.
    pub open spec fn view(self) -> ContractView {
        ContractView {
            balances: entries_map(self.accounts@),
            total_supply: self.total_supply as nat,
            reserve_locked: self.lzr_locked as nat,
            owner_id: self.owner_id@,
            metadata: self.metadata,
        }
    }
}

/// A request to the reserve-currency ledger: pay `amount` to `receiver_id`.
#[derive(Debug, PartialEq, Eq)]
pub struct FtTransfer {
    pub receiver_id: String,
    pub amount: u128,
}

/// The mapping with the balance of one account rewritten: a zero balance
/// leaves the account without an entry.
pub open spec fn write_balance(balances: Map<Seq<char>, nat>, id: Seq<char>, balance: nat) -> Map<
    Seq<char>,
    nat,
> {
    if balance == 0 {
        balances.remove(id)
    } else {
        balances.insert(id, balance)
    }
}

impl ContractView {
    /// The bookkeeping invariants: finitely many accounts, an entry exactly
    /// for the accounts that hold tokens, and a total supply equal to the sum
    /// of all balances.
    pub open spec fn consistent(self) -> bool {
        &&& self.balances.dom().finite()
        &&& all_positive(self.balances)
        &&& self.total_supply == total(self.balances)
    }

    /// The balance of an account.
    pub open spec fn balance(self, id: Seq<char>) -> nat {
        balance_in(self.balances, id)
    }

    /// The state after `amount` new tokens went to `id`: balance and supply
    /// grow by the same amount.
    pub open spec fn credit(self, id: Seq<char>, amount: nat) -> ContractView {
        ContractView {
            balances: write_balance(self.balances, id, self.balance(id) + amount),
            total_supply: self.total_supply + amount,
            ..self
        }
    }

    /// The state after `amount` tokens of `id` were destroyed: balance and
    /// supply shrink by the same amount.
    pub open spec fn debit(self, id: Seq<char>, amount: nat) -> ContractView
        recommends
            amount <= self.balance(id),
            amount <= self.total_supply,
    {
        ContractView {
            balances: write_balance(self.balances, id, (self.balance(id) - amount) as nat),
            total_supply: (self.total_supply - amount) as nat,
            ..self
        }
    }

    /// The state after `amount` of reserve was locked.
    pub open spec fn lock(self, amount: nat) -> ContractView {
        ContractView { reserve_locked: self.reserve_locked + amount, ..self }
    }

    /// The state after `amount` of reserve was released.
    pub open spec fn release(self, amount: nat) -> ContractView
        recommends
            amount <= self.reserve_locked,
    {
        ContractView { reserve_locked: (self.reserve_locked - amount) as nat, ..self }
    }
}

impl Contract {
    /// The contract as mathematical values.
    pub closed spec fn view(self) -> ContractView {
        ContractView {
            balances: self.accounts@,
            total_supply: self.total_supply as nat,
            reserve_locked: self.lzr_locked as nat,
            owner_id: self.owner_id@,
            metadata: self.metadata,
        }
    }

    /// The representation is sound and the bookkeeping invariants hold.
    pub closed spec fn wf(self) -> bool {
        &&& self.accounts.wf()
        &&& self.total_supply == total(self.accounts@)
        &&& self.metadata.valid()
    }

    /// What well-formedness means for the mathematical state.
    pub proof fn lemma_wf(self)
        requires
            self.wf(),
        ensures
            self@.consistent(),
            self@.metadata.valid(),
            self@.total_supply <= u128::MAX,
            self@.reserve_locked <= u128::MAX,
            forall|id: Seq<char>| #[trigger] self@.balance(id) <= self@.total_supply,
    {
        self.accounts.lemma_wf();
        assert forall|id: Seq<char>| #[trigger] self@.balance(id) <= self@.total_supply by {
            lemma_balance_le_total(self.accounts@, id);
        }
    }

    /// A contract for `owner_id` with the given record, with no tokens and no
    /// reserve.
    pub fn new(owner_id: String, metadata: TokenMetadata) -> (contract: Contract)
        requires
            metadata.valid(),
        ensures
            contract.wf(),
            contract@ == (ContractView {
                balances: Map::empty(),
                total_supply: 0,
                reserve_locked: 0,
                owner_id: owner_id@,
                metadata,
            }),
    {
        let contract = Contract {
            accounts: Accounts::new(),
            total_supply: 0,
            lzr_locked: 0,
            owner_id,
            metadata,
        };
        assert(total(Map::<Seq<char>, nat>::empty()) == 0);
        contract
    }

    /// A contract for `owner_id` with the record of a creator token.
    pub fn new_default_meta(owner_id: String, image_icon_data: String) -> (contract: Contract)
        ensures
            contract.wf(),
            contract@.balances == Map::<Seq<char>, nat>::empty(),
            contract@.total_supply == 0,
            contract@.reserve_locked == 0,
            contract@.owner_id == owner_id@,
            contract@.metadata.spec@ == "ft-1.0.0"@,
            contract@.metadata.name@ == "Loozr-CT"@,
            contract@.metadata.symbol@ == "LZR-CT"@,
            contract@.metadata.icon == Some(image_icon_data),
            contract@.metadata.reference.is_none(),
            contract@.metadata.reference_hash.is_none(),
            contract@.metadata.decimals == TOKEN_DECIMAL,
    {
        Contract::new(owner_id, TokenMetadata::creator_token(image_icon_data))
    }

    /// Puts a contract together from its parts, where they make one up.
    pub fn restore(parts: ContractParts) -> (contract: Option<Contract>)
        ensures
            contract is Some <==> parts.valid(),
            contract matches Some(c) ==> c.wf() && c@ == parts@,
    {
        if !parts.metadata.is_valid() {
            return None;
        }
        let mut sum: u128 = 0;
        let mut i: usize = 0;
        while i < parts.accounts.len()
            invariant
                i <= parts.accounts@.len(),
                sum == sum_balances(parts.accounts@.take(i as int)),
            decreases parts.accounts@.len() - i,
        {
            proof {
                lemma_prefix_sums(parts.accounts@, i as int);
            }
            sum = match sum.checked_add(parts.accounts[i].balance) {
                Some(sum) => sum,
                None => {
                    proof {
                        lemma_prefix_sums(parts.accounts@, i + 1);
                    }
                    return None;
                },
            };
            i += 1;
        }
        proof {
            lemma_prefix_sums(parts.accounts@, i as int);
        }
        if sum != parts.total_supply {
            return None;
        }
        let total_supply = parts.total_supply;
        let lzr_locked = parts.lzr_locked;
        let owner_id = parts.owner_id;
        let metadata = parts.metadata;
        let ghost entries = parts.accounts@;
        match Accounts::from_entries(parts.accounts) {
            Some(accounts) => {
                proof {
                    lemma_total_entries(entries);
                }
                Some(Contract { accounts, total_supply, lzr_locked, owner_id, metadata })
            },
            None => None,
        }
    }

    /// Takes the contract apart.
    pub fn into_parts(self) -> (parts: ContractParts)
        requires
            self.wf(),
        ensures
            parts.valid(),
            parts@ == self@,
    {
        let accounts = self.accounts.into_entries();
        proof {
            lemma_total_entries(accounts@);
        }
        ContractParts {
            accounts,
            total_supply: self.total_supply,
            lzr_locked: self.lzr_locked,
            owner_id: self.owner_id,
            metadata: self.metadata,
        }
    }

    /// The reserve currency locked behind the tokens.
    pub fn reserve_balance(self) -> (reserve: u128)
        ensures
            reserve == self@.reserve_locked,
    {
        self.lzr_locked
    }

    /// The reserve currency locked behind the tokens.
    pub fn lzr_locked(&self) -> (reserve: u128)
        ensures
            reserve == self@.reserve_locked,
    {
        self.lzr_locked
    }

    /// The number of tokens that exist.
    pub fn ft_total_supply(&self) -> (supply: u128)
        ensures
            supply == self@.total_supply,
    {
        self.total_supply
    }

    /// The balance of an account: zero where it holds no tokens.
    pub fn ft_balance_of(&self, account_id: &String) -> (balance: u128)
        requires
            self.wf(),
        ensures
            balance == self@.balance(account_id@),
    {
        self.accounts.internal_unwrap_balance_of(account_id)
    }

    /// The descriptive record of the token.
    pub fn ft_metadata(&self) -> (metadata: &TokenMetadata)
        ensures
            *metadata == self@.metadata,
    {
        &self.metadata
    }

    /// The account the contract was created for.
    pub fn owner_id(&self) -> (owner_id: &String)
        ensures
            owner_id@ == self@.owner_id,
    {
        &self.owner_id
    }

    /// Sets the locked reserve.
    pub(crate) fn set_reserve(&mut self, reserve: u128)
        requires
            old(self).wf(),
        ensures
            final(self).wf(),
            final(self)@ == (ContractView { reserve_locked: reserve as nat, ..old(self)@ }),
    {
        self.lzr_locked = reserve;
    }

    /// Creates `amount` tokens for `account_id`: its balance and the total
    /// supply grow together, or nothing changes.
    pub fn internal_mint(&mut self, amount: u128, account_id: &String) -> (result: Result<
        (),
        ContractError,
    >)
        requires
            old(self).wf(),
        ensures
            final(self).wf(),
            result is Err <==> old(self)@.total_supply + amount > u128::MAX,
            match result {
                Ok(_) => final(self)@ == old(self)@.credit(account_id@, amount as nat),
                Err(e) => e == ContractError::SupplyOverflow && *final(self) == *old(self),
            },
    {
        let supply = match self.total_supply.checked_add(amount) {
            Some(supply) => supply,
            None => {
                return Err(ContractError::SupplyOverflow);
            },
        };
        let balance = self.accounts.internal_unwrap_balance_of(account_id);
        proof {
            self.accounts.lemma_wf();
            lemma_balance_le_total(self.accounts@, account_id@);
            lemma_total_insert(self.accounts@, account_id@, (balance + amount) as nat);
        }
        self.accounts.internal_update_account(account_id, balance + amount);
        self.total_supply = supply;
        Ok(())
    }

    /// Destroys `amount` tokens of `account_id`: its balance and the total
    /// supply shrink together, or nothing changes.
    pub fn internal_burn(&mut self, amount: u128, account_id: &String) -> (result: Result<
        (),
        ContractError,
    >)
        requires
            old(self).wf(),
        ensures
            final(self).wf(),
            result is Err <==> amount > old(self)@.balance(account_id@),
            match result {
                Ok(_) => final(self)@ == old(self)@.debit(account_id@, amount as nat),
                Err(e) => e == ContractError::InsufficientBalance && *final(self) == *old(self),
            },
    {
        let balance = self.accounts.internal_unwrap_balance_of(account_id);
        if amount > balance {
            return Err(ContractError::InsufficientBalance);
        }
        proof {
            self.accounts.lemma_wf();
            lemma_balance_le_total(self.accounts@, account_id@);
            lemma_total_insert(self.accounts@, account_id@, (balance - amount) as nat);
        }
        self.accounts.internal_update_account(account_id, balance - amount);
        self.total_supply = self.total_supply - amount;
        Ok(())
    }
}

} // verus!
