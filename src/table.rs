use vstd::prelude::*;

use crate::Error;

verus! {

/// A key of a balance table: the holder's encoded location, then the bytes
/// that identify the asset.
pub type Key = (Seq<u8>, Seq<u8>);

/// The balance stored under `k`, or zero where the table holds no entry.
pub open spec fn balance_of(m: Map<Key, u128>, k: Key) -> u128 {
    if m.contains_key(k) {
        m[k]
    } else {
        0
    }
}

/// The table after adding `amount` to the balance under `k`, or
/// `BalanceOverflow` where the sum does not fit in a `u128`.
pub open spec fn checked_credit(m: Map<Key, u128>, k: Key, amount: u128) -> Result<
    Map<Key, u128>,
    Error,
> {
    if balance_of(m, k) + amount <= u128::MAX {
        Ok(m.insert(k, (balance_of(m, k) + amount) as u128))
    } else {
        Err(Error::BalanceOverflow)
    }
}

/// The table after taking `amount` from the balance under `k`, or
/// `BalanceTooLow` where the balance is smaller than `amount`.
pub open spec fn checked_debit(m: Map<Key, u128>, k: Key, amount: u128) -> Result<
    Map<Key, u128>,
    Error,
> {
    if amount <= balance_of(m, k) {
        Ok(m.insert(k, (balance_of(m, k) - amount) as u128))
    } else {
        Err(Error::BalanceTooLow)
    }
}

/// Whether two byte strings are equal.
pub fn bytes_equal(a: &Vec<u8>, b: &Vec<u8>) -> (r: bool)
    ensures
        r == (a@ == b@),
{
    if a.len() != b.len() {
        return false;
    }
    let mut i: usize = 0;
    while i < a.len()
        invariant
            a@.len() == b@.len(),
            i <= a@.len(),
            forall|j: int| 0 <= j < i ==> a@[j] == b@[j],
        decreases a@.len() - i,
    {
        if a[i] != b[i] {
            return false;
        }
        i += 1;
    }
    assert(a@ =~= b@);
    true
}

/// One stored balance.
struct Entry {
    holder: Vec<u8>,
    id: Vec<u8>,
    balance: u128,
}

impl Entry {
    spec fn key(&self) -> Key {
        (self.holder@, self.id@)
    }
}

/// A double map from (holder, asset identifier) to a balance, in which an
/// absent entry reads as zero.
pub struct BalanceTable {
    entries: Vec<Entry>,
}

impl View for BalanceTable {
    type V = Map<Key, u128>;

    closed spec fn view(&self) -> Map<Key, u128> {
        Map::new(
            |k: Key| exists|i: int| 0 <= i < self.entries@.len() && self.entries@[i].key() == k,
            |k: Key|
                self.entries@[choose|i: int|
                    0 <= i < self.entries@.len() && self.entries@[i].key() == k].balance,
        )
    }
}

impl BalanceTable {
    /// No two entries share a key.
    pub closed spec fn wf(&self) -> bool {
        forall|i: int, j: int|
            0 <= i < self.entries@.len() && 0 <= j < self.entries@.len() && i != j
                ==> self.entries@[i].key() != self.entries@[j].key()
    }

    /// An empty table.
    pub fn new() -> (r: BalanceTable)
        ensures
            r.wf(),
            r@ == Map::<Key, u128>::empty(),
    {
        let r = BalanceTable { entries: Vec::new() };
        assert(r@ =~= Map::<Key, u128>::empty());
        r
    }

    /// The index of the entry under `(holder, id)`, if there is one.
    fn find(&self, holder: &Vec<u8>, id: &Vec<u8>) -> (r: Option<usize>)
        ensures
            match r {
                Some(i) => i < self.entries@.len() && self.entries@[i as int].key() == (
                holder@,
                id@,
                ),
                None => forall|i: int|
                    0 <= i < self.entries@.len() ==> self.entries@[i].key() != (holder@, id@),
            },
    {
        let mut i: usize = 0;
        while i < self.entries.len()
            invariant
                i <= self.entries@.len(),
                forall|j: int| 0 <= j < i ==> self.entries@[j].key() != (holder@, id@),
            decreases self.entries@.len() - i,
        {
            let e = &self.entries[i];
            if bytes_equal(&e.holder, holder) && bytes_equal(&e.id, id) {
                return Some(i);
            }
            i += 1;
        }
        None
    }

    /// The balance under `(holder, id)`, zero where none is stored.
    pub fn get(&self, holder: &Vec<u8>, id: &Vec<u8>) -> (r: u128)
        requires
            self.wf(),
        ensures
            r == balance_of(self@, (holder@, id@)),
    {
        match self.find(holder, id) {
            Some(i) => {
                proof {
                    let k = (holder@, id@);
                    assert(self@.contains_key(k));
                    let j = choose|j: int| 0 <= j < self.entries@.len() && self.entries@[j].key() == k;
                    assert(j == i);
                }
                self.entries[i].balance
            },
            None => {
                assert(!self@.contains_key((holder@, id@)));
                0
            },
        }
    }

    /// Stores `value` under `(holder, id)`.
    pub fn set(&mut self, holder: &Vec<u8>, id: &Vec<u8>, value: u128)
        requires
            old(self).wf(),
        ensures
            final(self).wf(),
            final(self)@ == old(self)@.insert((holder@, id@), value),
    {
        let ghost k = (holder@, id@);
        match self.find(holder, id) {
            Some(i) => {
                let ghost pre = self.entries@;
                self.entries[i].balance = value;
                assert(self.entries@ == pre.update(i as int, self.entries@[i as int]));
                assert forall|c: Key| #[trigger] self@.contains_key(c) == old(self)@.insert(k, value).contains_key(c) by {
                    if c != k && old(self)@.contains_key(c) {
                        let j = choose|j: int| 0 <= j < pre.len() && pre[j].key() == c;
                        assert(self.entries@[j].key() == c);
                    }
                    if self@.contains_key(c) {
                        let j = choose|j: int| 0 <= j < self.entries@.len() && self.entries@[j].key() == c;
                        assert(pre[j].key() == c);
                    }
                }
                assert forall|c: Key| #[trigger] self@.contains_key(c) implies self@[c] == old(self)@.insert(k, value)[c] by {
                    let j = choose|j: int| 0 <= j < self.entries@.len() && self.entries@[j].key() == c;
                    assert(pre[j].key() == c);
                    if c != k {
                        let j0 = choose|j: int| 0 <= j < pre.len() && pre[j].key() == c;
                        assert(j0 == j);
                    } else {
                        assert(j == i);
                    }
                }
                assert(self@ =~= old(self)@.insert(k, value));
            },
            None => {
                let ghost pre = self.entries@;
                self.entries.push(Entry { holder: holder.clone(), id: id.clone(), balance: value });
                let ghost n = pre.len() as int;
                assert(self.entries@[n].key() == k);
                assert forall|c: Key| #[trigger] self@.contains_key(c) == old(self)@.insert(k, value).contains_key(c) by {
                    if c != k && old(self)@.contains_key(c) {
                        let j = choose|j: int| 0 <= j < pre.len() && pre[j].key() == c;
                        assert(self.entries@[j] == pre[j]);
                    }
                    if self@.contains_key(c) && c != k {
                        let j = choose|j: int| 0 <= j < self.entries@.len() && self.entries@[j].key() == c;
                        assert(j < n);
                        assert(pre[j].key() == c);
                    }
                }
                assert forall|c: Key| #[trigger] self@.contains_key(c) implies self@[c] == old(self)@.insert(k, value)[c] by {
                    let j = choose|j: int| 0 <= j < self.entries@.len() && self.entries@[j].key() == c;
                    if c != k {
                        assert(j < n);
                        let j0 = choose|j: int| 0 <= j < pre.len() && pre[j].key() == c;
                        assert(self.entries@[j0].key() == c);
                        assert(j0 == j);
                    } else {
                        assert(j == n);
                    }
                }
                assert(self@ =~= old(self)@.insert(k, value));
            },
        }
    }

    /// Adds `amount` to the balance under `(holder, id)`; on overflow the
    /// table is left as it was.
    pub fn try_credit(&mut self, holder: &Vec<u8>, id: &Vec<u8>, amount: u128) -> (r: Result<
        (),
        Error,
    >)
        requires
            old(self).wf(),
        ensures
            final(self).wf(),
            match checked_credit(old(self)@, (holder@, id@), amount) {
                Ok(m) => r == Ok::<(), Error>(()) && final(self)@ == m,
                Err(e) => r == Err::<(), Error>(e) && final(self)@ == old(self)@,
            },
    {
        let current = self.get(holder, id);
        match current.checked_add(amount) {
            Some(total) => {
                self.set(holder, id, total);
                Ok(())
            },
            None => Err(Error::BalanceOverflow),
        }
    }

    /// Takes `amount` from the balance under `(holder, id)`; where the
    /// balance is too low the table is left as it was.
    pub fn try_debit(&mut self, holder: &Vec<u8>, id: &Vec<u8>, amount: u128) -> (r: Result<
        (),
        Error,
    >)
        requires
            old(self).wf(),
        ensures
            final(self).wf(),
            match checked_debit(old(self)@, (holder@, id@), amount) {
                Ok(m) => r == Ok::<(), Error>(()) && final(self)@ == m,
                Err(e) => r == Err::<(), Error>(e) && final(self)@ == old(self)@,
            },
    {
        let current = self.get(holder, id);
        match current.checked_sub(amount) {
            Some(rest) => {
                self.set(holder, id, rest);
                Ok(())
            },
            None => Err(Error::BalanceTooLow),
        }
    }
}

} // verus!
