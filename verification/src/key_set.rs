//! The keys associated with an account, each with its weight.

use vstd::prelude::*;
use crate::types::{AccountHash, Weight};

verus! {

/// The sum of the weights of all keys in `keys`.
pub open spec fn total_weight(keys: Map<AccountHash, u8>) -> nat
    decreases keys.dom().len(),
    when keys.dom().finite()
    via total_weight_decreases
{
    if keys.dom().len() == 0 {
        0
    } else {
        let key = keys.dom().choose();
        keys[key] as nat + total_weight(keys.remove(key))
    }
}

#[via_fn]
proof fn total_weight_decreases(keys: Map<AccountHash, u8>) {
    if keys.dom().len() != 0 {
        let key = keys.dom().choose();
        vstd::set_lib::lemma_set_empty_equivalency_len(keys.dom());
        assert(keys.dom().contains(key));
        assert(keys.remove(key).dom() =~= keys.dom().remove(key));
    }
}

/// Taking any one key out of a set lowers the total by that key's weight.
pub proof fn lemma_total_weight_remove(keys: Map<AccountHash, u8>, key: AccountHash)
    requires
        keys.dom().finite(),
        keys.contains_key(key),
    ensures
        total_weight(keys) == keys[key] + total_weight(keys.remove(key)),
    decreases keys.dom().len(),
{
    let chosen = keys.dom().choose();
    assert(keys.dom().len() != 0) by {
        if keys.dom().len() == 0 {
            vstd::set_lib::lemma_set_empty_equivalency_len(keys.dom());
        }
    }
    if chosen != key {
        let without_chosen = keys.remove(chosen);
        let without_key = keys.remove(key);
        assert(without_chosen.dom() =~= keys.dom().remove(chosen));
        assert(without_key.dom() =~= keys.dom().remove(key));
        lemma_total_weight_remove(without_chosen, key);
        lemma_total_weight_remove(without_key, chosen);
        assert(without_chosen.remove(key) =~= without_key.remove(chosen));
    }
}

/// Setting the weight of one key, new or old, makes the total that weight
/// plus the total of the others.
pub proof fn lemma_total_weight_insert(keys: Map<AccountHash, u8>, key: AccountHash, weight: u8)
    requires
        keys.dom().finite(),
    ensures
        total_weight(keys.insert(key, weight)) == weight + total_weight(keys.remove(key)),
{
    lemma_total_weight_remove(keys.insert(key, weight), key);
    assert(keys.insert(key, weight).remove(key) =~= keys.remove(key));
}

/// What holds of every set of stored keys: there are finitely many, and none
/// has weight zero.
pub open spec fn valid_keys(keys: Map<AccountHash, u8>) -> bool {
    &&& keys.dom().finite()
    &&& forall|key: AccountHash| #[trigger] keys.contains_key(key) ==> keys[key] > 0
}

/// One stored key.
#[derive(Clone, Copy, Debug)]
struct KeyEntry {
    account: AccountHash,
    weight: u8,
}

/// The mapping that a list of entries stands for.
spec fn entries_map(entries: Seq<KeyEntry>) -> Map<AccountHash, u8>
    decreases entries.len(),
{
    if entries.len() == 0 {
        Map::empty()
    } else {
        entries_map(entries.drop_last()).insert(entries.last().account, entries.last().weight)
    }
}

/// No account occurs twice in the list.
spec fn distinct(entries: Seq<KeyEntry>) -> bool {
    forall|i: int, j: int|
        0 <= i < j < entries.len() ==> (#[trigger] entries[i]).account != (#[trigger] entries[j]).account
}

/// The sum of the weights of the listed keys that belong to `accounts`.
spec fn entries_sum(entries: Seq<KeyEntry>, accounts: Set<AccountHash>) -> nat
    decreases entries.len(),
{
    if entries.len() == 0 {
        0
    } else if accounts.contains(entries.last().account) {
        entries_sum(entries.drop_last(), accounts) + entries.last().weight as nat
    } else {
        entries_sum(entries.drop_last(), accounts)
    }
}

proof fn lemma_entries_map_domain(entries: Seq<KeyEntry>, account: AccountHash)
    ensures
        entries_map(entries).contains_key(account) <==> exists|i: int|
            0 <= i < entries.len() && (#[trigger] entries[i]).account == account,
    decreases entries.len(),
{
    if entries.len() > 0 {
        let front = entries.drop_last();
        lemma_entries_map_domain(front, account);
        if entries_map(entries).contains_key(account) {
            if entries.last().account == account {
                assert(entries[entries.len() - 1].account == account);
            } else {
                let i = choose|i: int| 0 <= i < front.len() && (#[trigger] front[i]).account == account;
                assert(entries[i].account == account);
            }
        }
        if exists|i: int| 0 <= i < entries.len() && (#[trigger] entries[i]).account == account {
            let i = choose|i: int| 0 <= i < entries.len() && (#[trigger] entries[i]).account == account;
            if i < entries.len() - 1 {
                assert(front[i].account == account);
            }
        }
    }
}

proof fn lemma_entries_map_value(entries: Seq<KeyEntry>, i: int)
    requires
        distinct(entries),
        0 <= i < entries.len(),
    ensures
        entries_map(entries).contains_key(entries[i].account),
        entries_map(entries)[entries[i].account] == entries[i].weight,
    decreases entries.len(),
{
    if i < entries.len() - 1 {
        let front = entries.drop_last();
        assert(front[i] == entries[i]);
        assert(entries[i].account != entries[entries.len() - 1].account);
        lemma_entries_map_value(front, i);
    }
}

proof fn lemma_entries_map_len(entries: Seq<KeyEntry>)
    requires
        distinct(entries),
    ensures
        entries_map(entries).dom().finite(),
        entries_map(entries).dom().len() == entries.len(),
    decreases entries.len(),
{
    if entries.len() > 0 {
        let front = entries.drop_last();
        lemma_entries_map_len(front);
        lemma_entries_map_domain(front, entries.last().account);
        if entries_map(front).contains_key(entries.last().account) {
            let i = choose|i: int| 0 <= i < front.len() && (#[trigger] front[i]).account == entries.last().account;
            assert(entries[i].account == entries[entries.len() - 1].account);
        }
    }
}

proof fn lemma_entries_sum(entries: Seq<KeyEntry>, accounts: Set<AccountHash>)
    requires
        distinct(entries),
    ensures
        total_weight(entries_map(entries).restrict(accounts)) == entries_sum(entries, accounts),
    decreases entries.len(),
{
    if entries.len() == 0 {
        assert(entries_map(entries).restrict(accounts).dom() =~= Set::empty());
    } else {
        let front = entries.drop_last();
        let last = entries.last();
        lemma_entries_sum(front, accounts);
        lemma_entries_map_len(front);
        lemma_entries_map_domain(front, last.account);
        if entries_map(front).contains_key(last.account) {
            let i = choose|i: int| 0 <= i < front.len() && (#[trigger] front[i]).account == last.account;
            assert(entries[i].account == entries[entries.len() - 1].account);
        }
        let rest = entries_map(front).restrict(accounts);
        assert(rest.dom() =~= entries_map(front).dom().intersect(accounts));
        if accounts.contains(last.account) {
            assert(entries_map(entries).restrict(accounts) =~= rest.insert(last.account, last.weight));
            lemma_total_weight_insert(rest, last.account, last.weight);
            assert(rest.remove(last.account) =~= rest);
        } else {
            assert(entries_map(entries).restrict(accounts) =~= rest);
        }
    }
}

proof fn lemma_entries_map_update(entries: Seq<KeyEntry>, i: int, entry: KeyEntry)
    requires
        distinct(entries),
        0 <= i < entries.len(),
        entry.account == entries[i].account,
    ensures
        distinct(entries.update(i, entry)),
        entries_map(entries.update(i, entry)) == entries_map(entries).insert(
            entry.account,
            entry.weight,
        ),
{
    let updated = entries.update(i, entry);
    assert(distinct(updated)) by {
        assert forall|a: int, b: int| 0 <= a < b < updated.len() implies (#[trigger] updated[a]).account
            != (#[trigger] updated[b]).account by {
            assert(updated[a].account == entries[a].account);
            assert(updated[b].account == entries[b].account);
        }
    }
    let before = entries_map(entries);
    let after = entries_map(updated);
    assert forall|account: AccountHash| after.contains_key(account) <==> #[trigger] before.insert(
        entry.account,
        entry.weight,
    ).contains_key(account) by {
        lemma_entries_map_domain(entries, account);
        lemma_entries_map_domain(updated, account);
        lemma_entries_map_value(entries, i);
        if after.contains_key(account) {
            let j = choose|j: int| 0 <= j < updated.len() && (#[trigger] updated[j]).account == account;
            assert(entries[j].account == account);
        }
        if before.contains_key(account) {
            let j = choose|j: int| 0 <= j < entries.len() && (#[trigger] entries[j]).account == account;
            assert(updated[j].account == account);
        }
        if account == entry.account {
            assert(updated[i].account == account);
        }
    }
    assert forall|account: AccountHash| #[trigger] after.contains_key(account) implies after[account]
        == before.insert(entry.account, entry.weight)[account] by {
        lemma_entries_map_domain(updated, account);
        let j = choose|j: int| 0 <= j < updated.len() && (#[trigger] updated[j]).account == account;
        lemma_entries_map_value(updated, j);
        lemma_entries_map_value(entries, j);
        if j != i {
            assert(updated[j] == entries[j]);
            if j < i {
                assert(entries[j].account != entries[i].account);
            } else {
                assert(entries[i].account != entries[j].account);
            }
        }
    }
    assert(after =~= before.insert(entry.account, entry.weight));
}

proof fn lemma_entries_map_push(entries: Seq<KeyEntry>, entry: KeyEntry)
    requires
        distinct(entries),
        !entries_map(entries).contains_key(entry.account),
    ensures
        distinct(entries.push(entry)),
        entries_map(entries.push(entry)) == entries_map(entries).insert(entry.account, entry.weight),
{
    let pushed = entries.push(entry);
    assert(pushed.drop_last() =~= entries);
    lemma_entries_map_domain(entries, entry.account);
    assert forall|a: int, b: int| 0 <= a < b < pushed.len() implies (#[trigger] pushed[a]).account
        != (#[trigger] pushed[b]).account by {
        assert(pushed[a] == entries[a]);
        if b < entries.len() {
            assert(pushed[b] == entries[b]);
        }
    }
}

proof fn lemma_entries_map_remove(entries: Seq<KeyEntry>, i: int)
    requires
        distinct(entries),
        0 <= i < entries.len(),
    ensures
        distinct(entries.remove(i)),
        entries_map(entries.remove(i)) == entries_map(entries).remove(entries[i].account),
{
    let removed = entries.remove(i);
    let gone = entries[i].account;
    assert forall|a: int| 0 <= a < removed.len() implies (#[trigger] removed[a]) == entries[if a < i {
        a
    } else {
        a + 1
    }] by {}
    assert(distinct(removed)) by {
        assert forall|a: int, b: int| 0 <= a < b < removed.len() implies (#[trigger] removed[a]).account
            != (#[trigger] removed[b]).account by {
            let a0 = if a < i { a } else { a + 1 };
            let b0 = if b < i { b } else { b + 1 };
            assert(removed[a] == entries[a0]);
            assert(removed[b] == entries[b0]);
        }
    }
    let before = entries_map(entries);
    let after = entries_map(removed);
    assert forall|account: AccountHash| after.contains_key(account) <==> #[trigger] before.remove(
        gone,
    ).contains_key(account) by {
        lemma_entries_map_domain(entries, account);
        lemma_entries_map_domain(removed, account);
        if after.contains_key(account) {
            let j = choose|j: int| 0 <= j < removed.len() && (#[trigger] removed[j]).account == account;
            let j0 = if j < i { j } else { j + 1 };
            assert(removed[j] == entries[j0]);
            assert(entries[j0].account == account);
            if j0 < i {
                assert(entries[j0].account != entries[i].account);
            } else {
                assert(entries[i].account != entries[j0].account);
            }
        }
        if before.contains_key(account) && account != gone {
            let j = choose|j: int| 0 <= j < entries.len() && (#[trigger] entries[j]).account == account;
            let j1 = if j < i { j } else { j - 1 };
            assert(removed[j1] == entries[j]);
            assert(removed[j1].account == account);
        }
    }
    assert forall|account: AccountHash| #[trigger] after.contains_key(account) implies after[account]
        == before.remove(gone)[account] by {
        lemma_entries_map_domain(removed, account);
        let j = choose|j: int| 0 <= j < removed.len() && (#[trigger] removed[j]).account == account;
        let j0 = if j < i { j } else { j + 1 };
        assert(removed[j] == entries[j0]);
        lemma_entries_map_value(removed, j);
        lemma_entries_map_value(entries, j0);
    }
    assert(after =~= before.remove(gone));
}

/// The keys associated with an account: a finite mapping from the key
/// owner's identifier to the key's weight, which is never zero.
#[derive(Debug)]
pub struct KeySet {
    entries: Vec<KeyEntry>,
}

impl View for KeySet {
    type V = Map<AccountHash, u8>;

    closed spec fn view(&self) -> Map<AccountHash, u8> {
        entries_map(self.entries@)
    }
}

impl KeySet {
    #[verifier::type_invariant]
    spec fn well_formed(self) -> bool {
        &&& distinct(self.entries@)
        &&& forall|i: int| 0 <= i < self.entries.len() ==> (#[trigger] self.entries[i]).weight > 0
    }

    proof fn lemma_valid(self)
        requires
            self.well_formed(),
        ensures
            valid_keys(self@),
    {
        lemma_entries_map_len(self.entries@);
        assert forall|key: AccountHash| #[trigger] self@.contains_key(key) implies self@[key] > 0 by {
            lemma_entries_map_domain(self.entries@, key);
            let i = choose|i: int| 0 <= i < self.entries.len() && (#[trigger] self.entries[i]).account == key;
            lemma_entries_map_value(self.entries@, i);
        }
    }

    /// The set with no key.
    pub fn new() -> (keys: KeySet)
        ensures
            keys@ == Map::<AccountHash, u8>::empty(),
            valid_keys(keys@),
    {
        KeySet { entries: Vec::new() }
    }

    /// The number of keys.
    pub fn len(&self) -> (len: usize)
        ensures
            valid_keys(self@),
            len == self@.len(),
    {
        proof {
            use_type_invariant(self);
            self.lemma_valid();
            lemma_entries_map_len(self.entries@);
        }
        self.entries.len()
    }

    /// Where `account` stands in the list, if it does.
    fn position(&self, account: &AccountHash) -> (found: Option<usize>)
        ensures
            match found {
                Some(i) => i < self.entries.len() && self.entries[i as int].account == *account,
                None => forall|i: int| 0 <= i < self.entries.len() ==> (#[trigger] self.entries[i]).account != *account,
            },
            found is Some <==> self@.contains_key(*account),
    {
        let mut i: usize = 0;
        while i < self.entries.len()
            invariant
                i <= self.entries.len(),
                forall|j: int| 0 <= j < i ==> (#[trigger] self.entries[j]).account != *account,
            decreases self.entries.len() - i,
        {
            if self.entries[i].account == *account {
                proof {
                    lemma_entries_map_domain(self.entries@, *account);
                    assert(self.entries@[i as int].account == *account);
                }
                return Some(i);
            }
            i += 1;
        }
        proof {
            lemma_entries_map_domain(self.entries@, *account);
        }
        None
    }

    /// The weight of the key of `account`, or `None` where the account has
    /// no key in the set.
    pub fn get(&self, account: &AccountHash) -> (weight: Option<u8>)
        ensures
            valid_keys(self@),
            match weight {
                Some(w) => self@.contains_key(*account) && self@[*account] == w && w > 0,
                None => !self@.contains_key(*account),
            },
    {
        proof {
            use_type_invariant(self);
            self.lemma_valid();
        }
        match self.position(account) {
            Some(i) => {
                proof {
                    lemma_entries_map_value(self.entries@, i as int);
                }
                Some(self.entries[i].weight)
            },
            None => None,
        }
    }

    /// Gives the key of `account` the weight `weight`, whether the account
    /// had a key before or not. No other key changes.
    pub fn insert(&mut self, account: AccountHash, weight: Weight)
        ensures
            final(self)@ == old(self)@.insert(account, weight.spec_value()),
            valid_keys(final(self)@),
    {
        proof {
            use_type_invariant(&*self);
        }
        let entry = KeyEntry { account, weight: weight.value() };
        let found = self.position(&account);
        let mut entries: Vec<KeyEntry> = Vec::new();
        core::mem::swap(&mut self.entries, &mut entries);
        match found {
            Some(i) => {
                proof {
                    lemma_entries_map_update(entries@, i as int, entry);
                }
                entries.set(i, entry);
            },
            None => {
                proof {
                    lemma_entries_map_push(entries@, entry);
                }
                entries.push(entry);
            },
        }
        self.entries = entries;
        proof {
            self.lemma_valid();
        }
    }

    /// Takes the key of `account` out of the set, if it is there. No other
    /// key changes.
    pub fn remove(&mut self, account: &AccountHash)
        ensures
            final(self)@ == old(self)@.remove(*account),
            valid_keys(final(self)@),
    {
        proof {
            use_type_invariant(&*self);
        }
        match self.position(account) {
            Some(i) => {
                let mut entries: Vec<KeyEntry> = Vec::new();
                core::mem::swap(&mut self.entries, &mut entries);
                proof {
                    lemma_entries_map_remove(entries@, i as int);
                }
                entries.remove(i);
                self.entries = entries;
            },
            None => {
                assert(self@.remove(*account) =~= self@);
            },
        }
        proof {
            self.lemma_valid();
        }
    }

    /// A second set with the same keys and weights.
    pub fn snapshot(&self) -> (copy: KeySet)
        ensures
            copy@ == self@,
            valid_keys(copy@),
    {
        proof {
            use_type_invariant(self);
        }
        let mut entries: Vec<KeyEntry> = Vec::new();
        let mut i: usize = 0;
        while i < self.entries.len()
            invariant
                i <= self.entries.len(),
                entries@ == self.entries@.take(i as int),
            decreases self.entries.len() - i,
        {
            entries.push(self.entries[i]);
            assert(self.entries@.take(i as int).push(self.entries@[i as int]) =~= self.entries@.take(
                i + 1,
            ));
            i += 1;
        }
        assert(self.entries@.take(i as int) =~= self.entries@);
        let copy = KeySet { entries };
        proof {
            copy.lemma_valid();
        }
        copy
    }

    /// The sum of the weights of the given accounts' keys. An account that
    /// is named twice counts once, and one without a key counts nothing.
    pub fn weight_of(&self, accounts: &Vec<AccountHash>) -> (weight: u128)
        ensures
            weight == total_weight(self@.restrict(accounts@.to_set())),
    {
        proof {
            use_type_invariant(self);
        }
        let ghost chosen = accounts@.to_set();
        let mut sum: u128 = 0;
        let mut i: usize = 0;
        while i < self.entries.len()
            invariant
                i <= self.entries.len(),
                chosen == accounts@.to_set(),
                sum == entries_sum(self.entries@.take(i as int), chosen),
                sum <= 255 * i,
            decreases self.entries.len() - i,
        {
            assert(self.entries@.take(i + 1).drop_last() =~= self.entries@.take(i as int));
            if contains(accounts, &self.entries[i].account) {
                sum = sum + self.entries[i].weight as u128;
            }
            i += 1;
        }
        proof {
            assert(self.entries@.take(i as int) =~= self.entries@);
            lemma_entries_sum(self.entries@, chosen);
        }
        sum
    }

    /// The sum of the weights of all keys.
    pub fn total_weight(&self) -> (weight: u128)
        ensures
            weight == total_weight(self@),
            weight <= 255 * self@.len(),
            self@.len() <= usize::MAX,
    {
        proof {
            use_type_invariant(self);
            lemma_entries_map_len(self.entries@);
        }
        let mut sum: u128 = 0;
        let mut i: usize = 0;
        while i < self.entries.len()
            invariant
                i <= self.entries.len(),
                sum == entries_sum(self.entries@.take(i as int), Set::full()),
                sum <= 255 * i,
            decreases self.entries.len() - i,
        {
            assert(self.entries@.take(i + 1).drop_last() =~= self.entries@.take(i as int));
            sum = sum + self.entries[i].weight as u128;
            i += 1;
        }
        proof {
            assert(self.entries@.take(i as int) =~= self.entries@);
            lemma_entries_sum(self.entries@, Set::full());
            assert(self@.restrict(Set::full()) =~= self@);
        }
        sum
    }
}

/// Whether `account` is one of `accounts`.
pub fn contains(accounts: &Vec<AccountHash>, account: &AccountHash) -> (found: bool)
    ensures
        found == accounts@.to_set().contains(*account),
{
    let mut i: usize = 0;
    while i < accounts.len()
        invariant
            i <= accounts.len(),
            forall|j: int| 0 <= j < i ==> accounts[j] != *account,
        decreases accounts.len() - i,
    {
        if accounts[i] == *account {
            assert(accounts@.contains(accounts@[i as int]));
            return true;
        }
        i += 1;
    }
    assert(!accounts@.contains(*account));
    false
}

} // verus!
