//! The balance mapping: account identifier to a positive amount of tokens.

use vstd::prelude::*;

verus! {

/// One entry of the balance mapping.
pub struct Account {
    pub id: String,
    pub balance: u128,
}

/// The balance mapping of the ledger.
///
/// An account has an entry exactly when it holds tokens: an account whose
/// balance falls to zero loses its entry.
pub struct Accounts {
    entries: Vec<Account>,
}

/// The sum of all balances of a finite balance mapping.
pub open spec fn total(balances: Map<Seq<char>, nat>) -> nat
    decreases balances.dom().len(),
    when balances.dom().finite()
{
    if balances.dom().is_empty() {
        0
    } else {
        let id = balances.dom().choose();
        balances[id] + total(balances.remove(id))
    }
}

/// The balance that a mapping gives an account: zero where it has no entry.
pub open spec fn balance_in(balances: Map<Seq<char>, nat>, id: Seq<char>) -> nat {
    if balances.dom().contains(id) {
        balances[id]
    } else {
        0
    }
}

/// Every entry of the mapping holds a positive balance.
pub open spec fn all_positive(balances: Map<Seq<char>, nat>) -> bool {
    forall|id: Seq<char>| balances.dom().contains(id) ==> #[trigger] balances[id] > 0
}

/// Taking one entry out of a mapping takes its balance out of the total.
pub proof fn lemma_total_remove(balances: Map<Seq<char>, nat>, id: Seq<char>)
    requires
        balances.dom().finite(),
        balances.dom().contains(id),
    ensures
        total(balances) == balances[id] + total(balances.remove(id)),
    decreases balances.dom().len(),
{
    let first = balances.dom().choose();
    if first != id {
        let rest = balances.remove(first);
        lemma_total_remove(rest, id);
        lemma_total_remove(balances.remove(id), first);
        assert(rest.remove(id) =~= balances.remove(id).remove(first));
    }
}

/// Writing a balance into a mapping replaces what the account held before in
/// the total.
pub proof fn lemma_total_insert(balances: Map<Seq<char>, nat>, id: Seq<char>, balance: nat)
    requires
        balances.dom().finite(),
    ensures
        total(balances.insert(id, balance)) + balance_in(balances, id) == total(balances)
            + balance,
        total(balances.remove(id)) + balance_in(balances, id) == total(balances),
{
    let written = balances.insert(id, balance);
    lemma_total_remove(written, id);
    assert(written.remove(id) =~= balances.remove(id));
    if balances.dom().contains(id) {
        lemma_total_remove(balances, id);
    } else {
        assert(balances.remove(id) =~= balances);
    }
}

/// No account holds more than the total.
pub proof fn lemma_balance_le_total(balances: Map<Seq<char>, nat>, id: Seq<char>)
    requires
        balances.dom().finite(),
    ensures
        balance_in(balances, id) <= total(balances),
{
    lemma_total_insert(balances, id, 0);
}

/// The entry at position `i` belongs to the account `id`.
pub open spec fn holds_at(entries: Seq<Account>, id: Seq<char>, i: int) -> bool {
    0 <= i < entries.len() && entries[i].id@ == id
}

/// No two entries belong to the same account.
pub open spec fn distinct(entries: Seq<Account>) -> bool {
    forall|i: int, j: int|
        0 <= i < j < entries.len() ==> (#[trigger] entries[i]).id@ != (#[trigger] entries[j]).id@
}

/// The accounts that have an entry.
pub open spec fn id_set(entries: Seq<Account>) -> Set<Seq<char>> {
    Set::new(|id: Seq<char>| exists|i: int| holds_at(entries, id, i))
}

/// No two entries belong to the same account, and none is empty.
pub open spec fn entries_valid(entries: Seq<Account>) -> bool {
    &&& distinct(entries)
    &&& forall|i: int| 0 <= i < entries.len() ==> (#[trigger] entries[i]).balance > 0
}

/// The sum of the balances of a list of entries.
pub open spec fn sum_balances(entries: Seq<Account>) -> nat
    decreases entries.len(),
{
    if entries.len() == 0 {
        0
    } else {
        sum_balances(entries.drop_last()) + entries.last().balance as nat
    }
}

/// The mapping that a list of entries stands for.
pub open spec fn entries_map(entries: Seq<Account>) -> Map<Seq<char>, nat> {
    id_set(entries).mk_map(
        |id: Seq<char>| entries[choose|i: int| holds_at(entries, id, i)].balance as nat,
    )
}

proof fn lemma_id_set_finite(entries: Seq<Account>)
    ensures
        id_set(entries).finite(),
    decreases entries.len(),
{
    if entries.len() == 0 {
        assert(id_set(entries) =~= Set::<Seq<char>>::empty());
    } else {
        let front = entries.drop_last();
        lemma_id_set_finite(front);
        assert forall|id: Seq<char>|
            id_set(entries).contains(id) <==> id_set(front).insert(entries.last().id@).contains(
                id,
            ) by {
            if id_set(entries).contains(id) {
                let i = choose|i: int| holds_at(entries, id, i);
                if i < front.len() {
                    assert(holds_at(front, id, i));
                }
            }
            if id_set(front).contains(id) {
                let i = choose|i: int| holds_at(front, id, i);
                assert(holds_at(entries, id, i));
            }
            if id == entries.last().id@ {
                assert(holds_at(entries, id, entries.len() - 1));
            }
        }
        assert(id_set(entries) =~= id_set(front).insert(entries.last().id@));
    }
}

/// What the mapping holds for the account of the entry at position `i`.
proof fn lemma_entry(entries: Seq<Account>, i: int)
    requires
        distinct(entries),
        0 <= i < entries.len(),
    ensures
        entries_map(entries).dom().contains(entries[i].id@),
        entries_map(entries)[entries[i].id@] == entries[i].balance,
{
    let id = entries[i].id@;
    assert(holds_at(entries, id, i));
    let j = choose|j: int| holds_at(entries, id, j);
    assert(i == j);
}

/// An account in the mapping has an entry in the list.
proof fn lemma_position(entries: Seq<Account>, id: Seq<char>) -> (i: int)
    requires
        entries_map(entries).dom().contains(id),
    ensures
        holds_at(entries, id, i),
{
    choose|i: int| holds_at(entries, id, i)
}

proof fn lemma_push(entries: Seq<Account>, account: Account)
    requires
        distinct(entries),
        !entries_map(entries).dom().contains(account.id@),
    ensures
        distinct(entries.push(account)),
        entries_map(entries.push(account)) == entries_map(entries).insert(
            account.id@,
            account.balance as nat,
        ),
{
    let after = entries.push(account);
    assert forall|i: int, j: int| 0 <= i < j < after.len() implies after[i].id@ != after[j].id@ by {
        if j == entries.len() {
            assert(holds_at(entries, entries[i].id@, i));
        }
    }
    let got = entries_map(after);
    let want = entries_map(entries).insert(account.id@, account.balance as nat);
    assert forall|id: Seq<char>| #![trigger got.dom().contains(id)]
        (got.dom().contains(id) <==> want.dom().contains(id)) && (got.dom().contains(id)
            ==> got[id] == want[id]) by {
        if got.dom().contains(id) {
            let i = lemma_position(after, id);
            lemma_entry(after, i);
            if i < entries.len() {
                lemma_entry(entries, i);
            }
        }
        if want.dom().contains(id) {
            if id == account.id@ {
                lemma_entry(after, entries.len() as int);
            } else {
                let i = lemma_position(entries, id);
                lemma_entry(after, i);
            }
        }
    }
    assert(got =~= want);
}

proof fn lemma_replace(entries: Seq<Account>, i: int, account: Account)
    requires
        distinct(entries),
        0 <= i < entries.len(),
        account.id@ == entries[i].id@,
    ensures
        distinct(entries.update(i, account)),
        entries_map(entries.update(i, account)) == entries_map(entries).insert(
            account.id@,
            account.balance as nat,
        ),
{
    let after = entries.update(i, account);
    assert forall|a: int, b: int| 0 <= a < b < after.len() implies after[a].id@ != after[b].id@ by {
        assert(after[a].id@ == entries[a].id@);
        assert(after[b].id@ == entries[b].id@);
    }
    let got = entries_map(after);
    let want = entries_map(entries).insert(account.id@, account.balance as nat);
    assert forall|id: Seq<char>| #![trigger got.dom().contains(id)]
        (got.dom().contains(id) <==> want.dom().contains(id)) && (got.dom().contains(id)
            ==> got[id] == want[id]) by {
        if got.dom().contains(id) {
            let k = lemma_position(after, id);
            lemma_entry(after, k);
            lemma_entry(entries, k);
        }
        if want.dom().contains(id) {
            if id == account.id@ {
                lemma_entry(after, i);
            } else {
                let k = lemma_position(entries, id);
                lemma_entry(after, k);
            }
        }
    }
    assert(got =~= want);
}

proof fn lemma_swap_remove(entries: Seq<Account>, i: int)
    requires
        distinct(entries),
        0 <= i < entries.len(),
    ensures
        distinct(entries.update(i, entries.last()).drop_last()),
        entries_map(entries.update(i, entries.last()).drop_last()) == entries_map(entries).remove(
            entries[i].id@,
        ),
{
    let last = entries.len() - 1;
    let after = entries.update(i, entries.last()).drop_last();
    // Where each entry of `after` stood in `entries`.
    let origin = |k: int| if k == i { last } else { k };
    assert forall|a: int, b: int| 0 <= a < b < after.len() implies after[a].id@ != after[b].id@ by {
        assert(after[a] == entries[origin(a)]);
        assert(after[b] == entries[origin(b)]);
    }
    let got = entries_map(after);
    let want = entries_map(entries).remove(entries[i].id@);
    assert forall|id: Seq<char>| #![trigger got.dom().contains(id)]
        (got.dom().contains(id) <==> want.dom().contains(id)) && (got.dom().contains(id)
            ==> got[id] == want[id]) by {
        if got.dom().contains(id) {
            let k = lemma_position(after, id);
            lemma_entry(after, k);
            assert(after[k] == entries[origin(k)]);
            lemma_entry(entries, origin(k));
            assert(origin(k) != i);
        }
        if want.dom().contains(id) {
            let k = lemma_position(entries, id);
            if k == last {
                lemma_entry(after, i);
            } else {
                lemma_entry(after, k);
            }
        }
    }
    assert(got =~= want);
}

/// The total of the mapping that a list of entries stands for is the sum of
/// the entries' balances.
pub proof fn lemma_total_entries(entries: Seq<Account>)
    requires
        distinct(entries),
    ensures
        entries_map(entries).dom().finite(),
        total(entries_map(entries)) == sum_balances(entries),
    decreases entries.len(),
{
    lemma_id_set_finite(entries);
    if entries.len() == 0 {
        assert(entries_map(entries).dom() =~= Set::<Seq<char>>::empty());
    } else {
        let front = entries.drop_last();
        let last = entries.last();
        lemma_total_entries(front);
        if entries_map(front).dom().contains(last.id@) {
            let i = lemma_position(front, last.id@);
            assert(entries[i].id@ == entries[entries.len() - 1].id@);
        }
        lemma_push(front, last);
        assert(front.push(last) =~= entries);
        lemma_total_insert(entries_map(front), last.id@, last.balance as nat);
    }
}

/// The sum of the balances of the first `n` entries grows by the next
/// entry's balance, is no more than the sum of all, and is the sum of all
/// where `n` is their number.
pub proof fn lemma_prefix_sums(entries: Seq<Account>, n: int)
    requires
        0 <= n <= entries.len(),
    ensures
        sum_balances(entries.take(n)) <= sum_balances(entries),
        n == entries.len() ==> sum_balances(entries.take(n)) == sum_balances(entries),
        n < entries.len() ==> sum_balances(entries.take(n + 1)) == sum_balances(entries.take(n))
            + entries[n].balance,
    decreases entries.len() - n,
{
    if n == entries.len() {
        assert(entries.take(n) =~= entries);
    } else {
        lemma_prefix_sums(entries, n + 1);
        assert(entries.take(n + 1).drop_last() =~= entries.take(n));
    }
}

impl Accounts {
    /// No two entries belong to the same account, and none is empty.
    pub closed spec fn wf(self) -> bool {
        entries_valid(self.entries@)
    }

    /// The mapping as a mathematical map.
    pub closed spec fn view(self) -> Map<Seq<char>, nat> {
        entries_map(self.entries@)
    }

    /// A well-formed mapping is finite and holds no zero balance: an account
    /// has an entry if and only if its balance is not zero.
    pub proof fn lemma_wf(self)
        requires
            self.wf(),
        ensures
            self@.dom().finite(),
            all_positive(self@),
            forall|id: Seq<char>| self@.dom().contains(id) <==> balance_in(self@, id) != 0,
    {
        lemma_id_set_finite(self.entries@);
        assert forall|id: Seq<char>| self@.dom().contains(id) implies #[trigger] self@[id] > 0 by {
            let i = lemma_position(self.entries@, id);
            lemma_entry(self.entries@, i);
        }
    }

    /// An empty mapping.
    pub fn new() -> (accounts: Accounts)
        ensures
            accounts.wf(),
            accounts@ == Map::<Seq<char>, nat>::empty(),
    {
        let accounts = Accounts { entries: Vec::new() };
        assert(accounts@ =~= Map::<Seq<char>, nat>::empty());
        accounts
    }

    /// The mapping that a list of entries stands for, where the list is
    /// valid: no account twice, no empty entry.
    pub fn from_entries(entries: Vec<Account>) -> (accounts: Option<Accounts>)
        ensures
            accounts is Some <==> entries_valid(entries@),
            accounts matches Some(a) ==> a.wf() && a@ == entries_map(entries@),
    {
        let mut i: usize = 0;
        while i < entries.len()
            invariant
                i <= entries@.len(),
                entries_valid(entries@.take(i as int)),
            decreases entries@.len() - i,
        {
            if entries[i].balance == 0 {
                return None;
            }
            let mut j: usize = 0;
            while j < i
                invariant
                    j <= i < entries@.len(),
                    forall|k: int| 0 <= k < j ==> (#[trigger] entries@[k]).id@ != entries@[i as int].id@,
                decreases i - j,
            {
                if entries[j].id == entries[i].id {
                    return None;
                }
                j += 1;
            }
            i += 1;
        }
        assert(entries@.take(i as int) =~= entries@);
        Some(Accounts { entries })
    }

    /// The entries of the mapping, in no particular order.
    pub fn into_entries(self) -> (entries: Vec<Account>)
        requires
            self.wf(),
        ensures
            entries_valid(entries@),
            entries_map(entries@) == self@,
    {
        self.entries
    }

    /// Where the entry of `account_id` stands, if it has one.
    fn position(&self, account_id: &String) -> (found: Option<usize>)
        requires
            self.wf(),
        ensures
            match found {
                Some(i) => holds_at(self.entries@, account_id@, i as int),
                None => !self@.dom().contains(account_id@),
            },
    {
        let mut i: usize = 0;
        while i < self.entries.len()
            invariant
                i <= self.entries@.len(),
                forall|k: int| 0 <= k < i ==> (#[trigger] self.entries@[k]).id@ != account_id@,
            decreases self.entries@.len() - i,
        {
            if self.entries[i].id == *account_id {
                return Some(i);
            }
            i += 1;
        }
        proof {
            if self@.dom().contains(account_id@) {
                let k = lemma_position(self.entries@, account_id@);
                assert(self.entries@[k].id@ == account_id@);
            }
        }
        None
    }

    /// The balance of an account: zero where it has no entry.
    pub fn internal_unwrap_balance_of(&self, account_id: &String) -> (balance: u128)
        requires
            self.wf(),
        ensures
            balance == balance_in(self@, account_id@),
    {
        match self.position(account_id) {
            Some(i) => {
                proof {
                    lemma_entry(self.entries@, i as int);
                }
                self.entries[i].balance
            },
            None => 0,
        }
    }

    /// Writes the balance of an account: a zero balance removes the entry,
    /// any other balance creates or overwrites it.
    pub fn internal_update_account(&mut self, account_id: &String, balance: u128)
        requires
            old(self).wf(),
        ensures
            final(self).wf(),
            final(self)@ == if balance == 0 {
                old(self)@.remove(account_id@)
            } else {
                old(self)@.insert(account_id@, balance as nat)
            },
            final(self)@.dom().contains(account_id@) <==> balance != 0,
            balance_in(final(self)@, account_id@) == balance,
    {
        let found = self.position(account_id);
        match found {
            Some(i) => {
                if balance == 0 {
                    proof {
                        lemma_swap_remove(self.entries@, i as int);
                    }
                    self.entries.swap_remove(i);
                } else {
                    let account = Account { id: account_id.clone(), balance };
                    proof {
                        lemma_replace(self.entries@, i as int, account);
                    }
                    self.entries.set(i, account);
                }
            },
            None => {
                if balance != 0 {
                    let account = Account { id: account_id.clone(), balance };
                    proof {
                        lemma_push(self.entries@, account);
                    }
                    self.entries.push(account);
                } else {
                    assert(self@.remove(account_id@) =~= self@);
                }
            },
        }
    }
}

} // verus!
