//! The host ledger's account store, modelled as a key-value store with
//! atomic create, update, and close-with-refund.

use vstd::prelude::*;
use crate::state::{Address, Wedding, Partner};

verus! {

/// A record stored in an account's data bytes.
#[derive(Debug)]
pub enum Record {
    Wedding(Wedding),
    Partner(Partner),
}

impl Clone for Record {
    fn clone(&self) -> (r: Self)
        ensures
            r == *self,
    {
        match self {
            Record::Wedding(w) => Record::Wedding(*w),
            Record::Partner(p) => Record::Partner(p.clone()),
        }
    }
}

/// One ledger account: its bonded funds and its stored record, if any.
/// An account whose `record` is `None` holds no data; an address absent
/// from the ledger altogether holds no data and no funds.
#[derive(Debug)]
pub struct Account {
    pub lamports: u64,
    pub record: Option<Record>,
}

impl Clone for Account {
    fn clone(&self) -> (r: Self)
        ensures
            r == *self,
    {
        Account {
            lamports: self.lamports,
            record: match &self.record {
                Some(rec) => Some(rec.clone()),
                None => None,
            },
        }
    }
}

/// The funds held at `a`, counting an absent account as zero.
pub open spec fn lamports_of(m: Map<Address, Account>, a: Address) -> u64 {
    if m.contains_key(a) {
        m[a].lamports
    } else {
        0
    }
}

/// The record stored at `a`, counting an absent account as empty.
pub open spec fn record_of(m: Map<Address, Account>, a: Address) -> Option<Record> {
    if m.contains_key(a) {
        m[a].record
    } else {
        None
    }
}

/// Whether the address `a` already carries state: stored data or funds.
/// Liveness of a record is exactly this predicate on its derived address.
pub open spec fn initialized(m: Map<Address, Account>, a: Address) -> bool {
    record_of(m, a) is Some || lamports_of(m, a) > 0
}

/// The agreement record stored at `a`, if `a` holds one.
pub open spec fn wedding_at(m: Map<Address, Account>, a: Address) -> Option<Wedding> {
    match record_of(m, a) {
        Some(Record::Wedding(w)) => Some(w),
        _ => None,
    }
}

/// The partner record stored at `a`, if `a` holds one.
pub open spec fn partner_at(m: Map<Address, Account>, a: Address) -> Option<Partner> {
    match record_of(m, a) {
        Some(Record::Partner(p)) => Some(p),
        _ => None,
    }
}

/// `m` with `amount` lamports added at `a`, the record there unchanged.
pub open spec fn credited(m: Map<Address, Account>, a: Address, amount: u64) -> Map<
    Address,
    Account,
> {
    m.insert(
        a,
        (Account { lamports: (lamports_of(m, a) + amount) as u64, record: record_of(m, a) }),
    )
}

/// `m` with `amount` lamports taken from `a`, the record there unchanged.
pub open spec fn debited(m: Map<Address, Account>, a: Address, amount: u64) -> Map<
    Address,
    Account,
> {
    m.insert(
        a,
        (Account { lamports: (lamports_of(m, a) - amount) as u64, record: record_of(m, a) }),
    )
}

/// `m` with the partner record at `a` replaced by `p`, funds unchanged.
pub open spec fn with_partner(m: Map<Address, Account>, a: Address, p: Partner) -> Map<
    Address,
    Account,
> {
    m.insert(a, (Account { lamports: lamports_of(m, a), record: Some(Record::Partner(p)) }))
}

/// `m` with the agreement record at `a` replaced by `w`, funds unchanged.
pub open spec fn with_wedding(m: Map<Address, Account>, a: Address, w: Wedding) -> Map<
    Address,
    Account,
> {
    m.insert(a, (Account { lamports: lamports_of(m, a), record: Some(Record::Wedding(w)) }))
}

/// The map an association list of accounts denotes; later entries win,
/// though a well-formed ledger never repeats an address.
pub open spec fn entries_map(s: Seq<(Address, Account)>) -> Map<Address, Account>
    decreases s.len(),
{
    if s.len() == 0 {
        Map::empty()
    } else {
        entries_map(s.drop_last()).insert(s.last().0, s.last().1)
    }
}

/// No address occurs twice in the list.
pub open spec fn entries_unique(s: Seq<(Address, Account)>) -> bool {
    forall|i: int, j: int|
        0 <= i < j < s.len() ==> (#[trigger] s[i]).0 != (#[trigger] s[j]).0
}

proof fn lemma_entries_map_contains(s: Seq<(Address, Account)>, a: Address)
    ensures
        entries_map(s).contains_key(a) <==> (exists|i: int| 0 <= i < s.len() && (#[trigger] s[i]).0 == a),
    decreases s.len(),
{
    if s.len() > 0 {
        lemma_entries_map_contains(s.drop_last(), a);
        if s.last().0 == a {
            assert(s[s.len() - 1].0 == a);
        } else if entries_map(s).contains_key(a) {
            let i = choose|i: int| 0 <= i < s.drop_last().len() && s.drop_last()[i].0 == a;
            assert(s[i].0 == a);
        } else if exists|i: int| 0 <= i < s.len() && (#[trigger] s[i]).0 == a {
            let i = choose|i: int| 0 <= i < s.len() && (#[trigger] s[i]).0 == a;
            assert(s.drop_last()[i].0 == a);
        }
    }
}

proof fn lemma_unique_drop_last(s: Seq<(Address, Account)>)
    requires
        entries_unique(s),
        s.len() > 0,
    ensures
        entries_unique(s.drop_last()),
{
    assert forall|x: int, y: int| 0 <= x < y < s.drop_last().len() implies (#[trigger] s.drop_last()[x]).0
        != (#[trigger] s.drop_last()[y]).0 by {
        assert(s.drop_last()[x] == s[x]);
        assert(s.drop_last()[y] == s[y]);
    }
}

proof fn lemma_entries_map_index(s: Seq<(Address, Account)>, i: int)
    requires
        entries_unique(s),
        0 <= i < s.len(),
    ensures
        entries_map(s).contains_key(s[i].0),
        entries_map(s)[s[i].0] == s[i].1,
    decreases s.len(),
{
    if i < s.len() - 1 {
        lemma_unique_drop_last(s);
        assert(s.drop_last()[i] == s[i]);
        lemma_entries_map_index(s.drop_last(), i);
        assert(s[i].0 != s.last().0);
    }
}

proof fn lemma_entries_map_remove(s: Seq<(Address, Account)>, i: int)
    requires
        entries_unique(s),
        0 <= i < s.len(),
    ensures
        entries_unique(s.remove(i)),
        entries_map(s.remove(i)) == entries_map(s).remove(s[i].0),
    decreases s.len(),
{
    let k = s[i].0;
    assert forall|x: int, y: int| 0 <= x < y < s.remove(i).len() implies (#[trigger] s.remove(
        i,
    )[x]).0 != (#[trigger] s.remove(i)[y]).0 by {
        let x0 = if x < i { x } else { x + 1 };
        let y0 = if y < i { y } else { y + 1 };
        assert(s.remove(i)[x] == s[x0]);
        assert(s.remove(i)[y] == s[y0]);
    }
    if i == s.len() - 1 {
        assert(s.remove(i) =~= s.drop_last());
        lemma_entries_map_contains(s.drop_last(), k);
        assert(forall|j: int|
            0 <= j < s.drop_last().len() ==> (#[trigger] s.drop_last()[j]) == s[j]);
        assert(!entries_map(s.drop_last()).contains_key(k));
        assert(entries_map(s.drop_last()).remove(k) =~= entries_map(s.drop_last()));
        assert(entries_map(s).remove(k) =~= entries_map(s.drop_last()));
    } else {
        lemma_unique_drop_last(s);
        assert(s.remove(i).last() == s.last());
        assert(s.remove(i).drop_last() =~= s.drop_last().remove(i));
        lemma_entries_map_remove(s.drop_last(), i);
        assert(s.drop_last()[i] == s[i]);
        assert(entries_map(s.remove(i)) == entries_map(s.drop_last()).remove(k).insert(
            s.last().0,
            s.last().1,
        ));
        assert(k != s.last().0);
        assert(entries_map(s.drop_last()).remove(k).insert(s.last().0, s.last().1)
            =~= entries_map(s).remove(k));
    }
}

proof fn lemma_entries_map_push(s: Seq<(Address, Account)>, a: Address, acc: Account)
    ensures
        entries_map(s.push((a, acc))) == entries_map(s).insert(a, acc),
{
    assert(s.push((a, acc)).drop_last() =~= s);
    assert(s.push((a, acc)).last() == (a, acc));
}

/// The account store. Each address maps to at most one account; the view
/// is the finite map from live addresses to their accounts.
pub struct Ledger {
    entries: Vec<(Address, Account)>,
}

impl View for Ledger {
    type V = Map<Address, Account>;

    closed spec fn view(&self) -> Map<Address, Account> {
        entries_map(self.entries@)
    }
}

impl Ledger {
    /// The store keeps each address at most once.
    pub closed spec fn wf(&self) -> bool {
        entries_unique(self.entries@)
    }

    /// An empty ledger: no address carries state.
    pub fn new() -> (r: Ledger)
        ensures
            r.wf(),
            r@ == Map::<Address, Account>::empty(),
    {
        Ledger { entries: Vec::new() }
    }

    fn find_index(&self, address: &Address) -> (r: Option<usize>)
        ensures
            match r {
                Some(i) => i < self.entries@.len() && self.entries@[i as int].0 == *address,
                None => forall|i: int|
                    0 <= i < self.entries@.len() ==> (#[trigger] self.entries@[i]).0 != *address,
            },
    {
        let n = self.entries.len();
        let mut i: usize = 0;
        while i < n
            invariant
                n == self.entries@.len(),
                i <= n,
                forall|j: int| 0 <= j < i ==> (#[trigger] self.entries@[j]).0 != *address,
            decreases n - i,
        {
            if self.entries[i].0 == *address {
                return Some(i);
            }
            i = i + 1;
        }
        None
    }

    /// Reads the account at `address`, if the address carries any state.
    pub fn read(&self, address: &Address) -> (r: Option<&Account>)
        requires
            self.wf(),
        ensures
            match r {
                Some(acc) => self@.contains_key(*address) && *acc == self@[*address],
                None => !self@.contains_key(*address),
            },
    {
        proof {
            lemma_entries_map_contains(self.entries@, *address);
        }
        match self.find_index(address) {
            Some(i) => {
                proof {
                    lemma_entries_map_index(self.entries@, i as int);
                }
                Some(&self.entries[i].1)
            },
            None => None,
        }
    }

    /// The funds held at `address`, zero when the address is absent.
    pub fn lamports(&self, address: &Address) -> (r: u64)
        requires
            self.wf(),
        ensures
            r == lamports_of(self@, *address),
    {
        match self.read(address) {
            Some(acc) => acc.lamports,
            None => 0,
        }
    }

    /// Stores `account` at `address`, replacing whatever was there.
    fn put(&mut self, address: Address, account: Account)
        requires
            old(self).wf(),
        ensures
            final(self).wf(),
            final(self)@ == old(self)@.insert(address, account),
    {
        let ghost pre = self.entries@;
        match self.find_index(&address) {
            Some(i) => {
                proof {
                    lemma_entries_map_remove(pre, i as int);
                }
                let _ = self.entries.remove(i);
                let ghost mid = self.entries@;
                proof {
                    assert forall|j: int| 0 <= j < mid.len() implies (#[trigger] mid[j]).0
                        != address by {
                        if j < i {
                            assert(mid[j] == pre[j]);
                        } else {
                            assert(mid[j] == pre[j + 1]);
                        }
                    }
                    lemma_entries_map_push(mid, address, account);
                }
                self.entries.push((address, account));
                proof {
                    assert forall|x: int, y: int|
                        0 <= x < y < self.entries@.len() implies (#[trigger] self.entries@[x]).0
                        != (#[trigger] self.entries@[y]).0 by {
                        assert(self.entries@[x] == mid[x]);
                        if y < self.entries@.len() - 1 {
                            assert(self.entries@[y] == mid[y]);
                        }
                    }
                    assert(self@ =~= old(self)@.insert(address, account));
                }
            },
            None => {
                proof {
                    lemma_entries_map_push(pre, address, account);
                }
                self.entries.push((address, account));
                proof {
                    assert forall|x: int, y: int|
                        0 <= x < y < self.entries@.len() implies (#[trigger] self.entries@[x]).0
                        != (#[trigger] self.entries@[y]).0 by {
                        assert(self.entries@[x] == pre[x]);
                        if y < self.entries@.len() - 1 {
                            assert(self.entries@[y] == pre[y]);
                        }
                    }
                }
            },
        }
    }

    /// Removes the account at `address` and hands it back, if one exists.
    pub(crate) fn delete(&mut self, address: &Address) -> (r: Option<Account>)
        requires
            old(self).wf(),
        ensures
            final(self).wf(),
            final(self)@ == old(self)@.remove(*address),
            r == (if old(self)@.contains_key(*address) {
                Some(old(self)@[*address])
            } else {
                Option::<Account>::None
            }),
    {
        proof {
            lemma_entries_map_contains(self.entries@, *address);
        }
        match self.find_index(address) {
            Some(i) => {
                proof {
                    lemma_entries_map_index(self.entries@, i as int);
                    lemma_entries_map_remove(self.entries@, i as int);
                }
                let (_, account) = self.entries.remove(i);
                Some(account)
            },
            None => {
                proof {
                    assert(self@.remove(*address) =~= self@);
                }
                None
            },
        }
    }

    /// Reads the partner record at `address`, if one is stored there.
    pub fn read_partner(&self, address: &Address) -> (r: Option<Partner>)
        requires
            self.wf(),
        ensures
            r == partner_at(self@, *address),
    {
        match self.read(address) {
            Some(acc) => match &acc.record {
                Some(Record::Partner(p)) => Some(p.clone()),
                _ => None,
            },
            None => None,
        }
    }

    /// Reads the agreement record at `address`, if one is stored there.
    pub fn read_wedding(&self, address: &Address) -> (r: Option<Wedding>)
        requires
            self.wf(),
        ensures
            r == wedding_at(self@, *address),
    {
        match self.read(address) {
            Some(acc) => match &acc.record {
                Some(Record::Wedding(w)) => Some(*w),
                _ => None,
            },
            None => None,
        }
    }

    /// Overwrites the record at `address` with the partner record `p`,
    /// leaving the funds there untouched.
    pub(crate) fn write_partner(&mut self, address: Address, p: Partner)
        requires
            old(self).wf(),
        ensures
            final(self).wf(),
            final(self)@ == with_partner(old(self)@, address, p),
    {
        let l = self.lamports(&address);
        self.put(address, Account { lamports: l, record: Some(Record::Partner(p)) });
    }

    /// Overwrites the record at `address` with the agreement record `w`,
    /// leaving the funds there untouched.
    pub(crate) fn write_wedding(&mut self, address: Address, w: Wedding)
        requires
            old(self).wf(),
        ensures
            final(self).wf(),
            final(self)@ == with_wedding(old(self)@, address, w),
    {
        let l = self.lamports(&address);
        self.put(address, Account { lamports: l, record: Some(Record::Wedding(w)) });
    }

    /// Takes `amount` lamports from the account at `address`. This is how
    /// a payer funds a deposit.
    pub(crate) fn debit(&mut self, address: Address, amount: u64)
        requires
            old(self).wf(),
            amount <= lamports_of(old(self)@, address),
        ensures
            final(self).wf(),
            final(self)@ == debited(old(self)@, address, amount),
    {
        match self.delete(&address) {
            Some(acc) => {
                self.put(address, Account { lamports: acc.lamports - amount, record: acc.record });
                proof {
                    assert(self@ =~= debited(old(self)@, address, amount));
                }
            },
            None => {
                self.put(address, Account { lamports: 0, record: None });
                proof {
                    assert(self@ =~= debited(old(self)@, address, amount));
                }
            },
        }
    }

    /// Adds `amount` lamports to the account at `address`, creating an
    /// empty account there first if the address carried no state. This is
    /// how deposits and refunds arrive at an address.
    pub fn credit(&mut self, address: Address, amount: u64)
        requires
            old(self).wf(),
            lamports_of(old(self)@, address) + amount <= u64::MAX,
        ensures
            final(self).wf(),
            final(self)@ == credited(old(self)@, address, amount),
    {
        match self.delete(&address) {
            Some(acc) => {
                self.put(address, Account { lamports: acc.lamports + amount, record: acc.record });
                proof {
                    assert(self@ =~= old(self)@.insert(
                        address,
                        (Account {
                            lamports: (lamports_of(old(self)@, address) + amount) as u64,
                            record: record_of(old(self)@, address),
                        }),
                    ));
                }
            },
            None => {
                self.put(address, Account { lamports: amount, record: None });
                proof {
                    assert(self@ =~= old(self)@.insert(
                        address,
                        (Account {
                            lamports: (lamports_of(old(self)@, address) + amount) as u64,
                            record: record_of(old(self)@, address),
                        }),
                    ));
                }
            },
        }
    }
}

} // verus!
