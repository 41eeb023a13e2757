use vstd::prelude::*;
use crate::key::Key;
use crate::state::{AccountData, PaymentLinkAccount, ProgramError, StoreMap, StoredAccount, UserProfileAccount};

verus! {

/// A key-addressed store of records, each with the deposit paid for it,
/// belonging to one program.
pub struct AccountStore {
    program_id: Key,
    accounts: Vec<StoredAccount>,
}

pub open spec fn unique_addresses(s: Seq<StoredAccount>) -> bool {
    forall|i: int, j: int|
        0 <= i < s.len() && 0 <= j < s.len() && i != j ==> s[i].address@ != s[j].address@
}

pub open spec fn holds_address(s: Seq<StoredAccount>, a: Seq<u8>) -> bool {
    exists|i: int| 0 <= i < s.len() && s[i].address@ == a
}

pub open spec fn entries_map(s: Seq<StoredAccount>) -> StoreMap {
    Map::new(
        |a: Seq<u8>| holds_address(s, a),
        |a: Seq<u8>|
            {
                let i = choose|i: int| 0 <= i < s.len() && s[i].address@ == a;
                (s[i].data, s[i].lamports)
            },
    )
}

proof fn lemma_entry_at(s: Seq<StoredAccount>, i: int)
    requires
        unique_addresses(s),
        0 <= i < s.len(),
    ensures
        entries_map(s).contains_key(s[i].address@),
        entries_map(s)[s[i].address@] == (s[i].data, s[i].lamports),
{
    assert(holds_address(s, s[i].address@));
}

proof fn lemma_push(s: Seq<StoredAccount>, e: StoredAccount)
    requires
        unique_addresses(s),
        !entries_map(s).contains_key(e.address@),
    ensures
        unique_addresses(s.push(e)),
        entries_map(s.push(e)) == entries_map(s).insert(e.address@, (e.data, e.lamports)),
{
    let t = s.push(e);
    assert forall|i: int, j: int|
        0 <= i < t.len() && 0 <= j < t.len() && i != j implies t[i].address@ != t[j].address@ by {
        if i < s.len() && j < s.len() {
        } else if i < s.len() {
            assert(holds_address(s, t[i].address@));
        } else {
            assert(holds_address(s, t[j].address@));
        }
    }
    let m = entries_map(s).insert(e.address@, (e.data, e.lamports));
    assert forall|a: Seq<u8>| #[trigger] entries_map(t).contains_key(a) == m.contains_key(a) by {
        if holds_address(t, a) {
            let i = choose|i: int| 0 <= i < t.len() && t[i].address@ == a;
            if i < s.len() {
                assert(holds_address(s, a));
            }
        }
        if holds_address(s, a) {
            let i = choose|i: int| 0 <= i < s.len() && s[i].address@ == a;
            assert(t[i].address@ == a);
        }
        if a == e.address@ {
            assert(t[s.len() as int].address@ == a);
        }
    }
    assert forall|a: Seq<u8>| #[trigger] m.contains_key(a) implies entries_map(t)[a] == m[a] by {
        if a == e.address@ {
            lemma_entry_at(t, s.len() as int);
        } else {
            let i = choose|i: int| 0 <= i < s.len() && s[i].address@ == a;
            lemma_entry_at(s, i);
            lemma_entry_at(t, i);
        }
    }
    assert(entries_map(t) =~= m);
}

proof fn lemma_update(s: Seq<StoredAccount>, i: int, e: StoredAccount)
    requires
        unique_addresses(s),
        0 <= i < s.len(),
        e.address@ == s[i].address@,
    ensures
        unique_addresses(s.update(i, e)),
        entries_map(s.update(i, e)) == entries_map(s).insert(e.address@, (e.data, e.lamports)),
{
    let t = s.update(i, e);
    let m = entries_map(s).insert(e.address@, (e.data, e.lamports));
    lemma_entry_at(s, i);
    assert forall|a: Seq<u8>| #[trigger] entries_map(t).contains_key(a) == m.contains_key(a) by {
        if holds_address(t, a) {
            let j = choose|j: int| 0 <= j < t.len() && t[j].address@ == a;
            assert(s[j].address@ == a);
        }
        if holds_address(s, a) {
            let j = choose|j: int| 0 <= j < s.len() && s[j].address@ == a;
            assert(t[j].address@ == a);
        }
    }
    assert forall|a: Seq<u8>| #[trigger] m.contains_key(a) implies entries_map(t)[a] == m[a] by {
        if a == e.address@ {
            lemma_entry_at(t, i);
        } else {
            let j = choose|j: int| 0 <= j < s.len() && s[j].address@ == a;
            lemma_entry_at(s, j);
            lemma_entry_at(t, j);
        }
    }
    assert(entries_map(t) =~= m);
}

proof fn lemma_remove(s: Seq<StoredAccount>, i: int)
    requires
        unique_addresses(s),
        0 <= i < s.len(),
    ensures
        unique_addresses(s.remove(i)),
        entries_map(s.remove(i)) == entries_map(s).remove(s[i].address@),
{
    let t = s.remove(i);
    let gone = s[i].address@;
    let m = entries_map(s).remove(gone);
    assert forall|j: int, k: int|
        0 <= j < t.len() && 0 <= k < t.len() && j != k implies t[j].address@ != t[k].address@ by {
        let jj = if j < i { j } else { j + 1 };
        let kk = if k < i { k } else { k + 1 };
        assert(t[j] == s[jj]);
        assert(t[k] == s[kk]);
    }
    assert forall|a: Seq<u8>| #[trigger] entries_map(t).contains_key(a) == m.contains_key(a) by {
        if holds_address(t, a) {
            let j = choose|j: int| 0 <= j < t.len() && t[j].address@ == a;
            let jj = if j < i { j } else { j + 1 };
            assert(t[j] == s[jj]);
            assert(holds_address(s, a));
        }
        if holds_address(s, a) && a != gone {
            let j = choose|j: int| 0 <= j < s.len() && s[j].address@ == a;
            let jt = if j < i { j } else { j - 1 };
            assert(t[jt] == s[j]);
            assert(holds_address(t, a));
        }
    }
    assert forall|a: Seq<u8>| #[trigger] m.contains_key(a) implies entries_map(t)[a] == m[a] by {
        let j = choose|j: int| 0 <= j < s.len() && s[j].address@ == a;
        let jt = if j < i { j } else { j - 1 };
        assert(t[jt] == s[j]);
        lemma_entry_at(s, j);
        lemma_entry_at(t, jt);
    }
    assert(entries_map(t) =~= m);
}

impl AccountStore {
    pub closed spec fn wf(&self) -> bool {
        unique_addresses(self.accounts@)
    }

    /// The records held, by address.
    pub closed spec fn records(&self) -> StoreMap {
        entries_map(self.accounts@)
    }

    pub closed spec fn program_id_spec(&self) -> Seq<u8> {
        self.program_id@
    }

    /// An empty store for the program `program_id`.
    pub fn new(program_id: Key) -> (r: AccountStore)
        ensures
            r.wf(),
            r.records() == Map::<Seq<u8>, (AccountData, u64)>::empty(),
            r.program_id_spec() == program_id@,
    {
        let r = AccountStore { program_id, accounts: Vec::new() };
        assert(r.records() =~= Map::<Seq<u8>, (AccountData, u64)>::empty());
        r
    }

    pub fn program_id(&self) -> (r: Key)
        ensures
            r@ == self.program_id_spec(),
    {
        self.program_id
    }

    fn position(&self, address: &Key) -> (r: Option<usize>)
        requires
            self.wf(),
        ensures
            match r {
                Some(i) => i < self.accounts@.len() && self.accounts@[i as int].address@ == address@,
                None => !self.records().contains_key(address@),
            },
    {
        let mut i: usize = 0;
        while i < self.accounts.len()
            invariant
                i <= self.accounts@.len(),
                forall|j: int| 0 <= j < i ==> self.accounts@[j].address@ != address@,
            decreases self.accounts@.len() - i,
        {
            if self.accounts[i].address.same_as(address) {
                return Some(i);
            }
            i = i + 1;
        }
        None
    }

    /// Allocates a record at `address` with `lamports` deposited for it; refused
    /// when a record already lives there.
    pub fn create(&mut self, address: &Key, data: AccountData, lamports: u64) -> (r: Result<(), ProgramError>)
        requires
            old(self).wf(),
        ensures
            final(self).wf(),
            final(self).program_id_spec() == old(self).program_id_spec(),
            old(self).records().contains_key(address@) ==> r == Err::<(), ProgramError>(ProgramError::AddressAlreadyInUse)
                && final(self).records() == old(self).records(),
            !old(self).records().contains_key(address@) ==> r == Ok::<(), ProgramError>(())
                && final(self).records() == old(self).records().insert(address@, (data, lamports)),
    {
        match self.position(address) {
            Some(i) => {
                proof {
                    lemma_entry_at(self.accounts@, i as int);
                }
                Err(ProgramError::AddressAlreadyInUse)
            },
            None => {
                let e = StoredAccount { address: *address, data, lamports };
                proof {
                    lemma_push(self.accounts@, e);
                }
                self.accounts.push(e);
                Ok(())
            },
        }
    }

    /// The record at `address`, if any.
    pub fn read(&self, address: &Key) -> (r: Option<AccountData>)
        requires
            self.wf(),
        ensures
            match r {
                Some(d) => self.records().contains_key(address@) && self.records()[address@].0 == d,
                None => !self.records().contains_key(address@),
            },
    {
        match self.position(address) {
            Some(i) => {
                proof {
                    lemma_entry_at(self.accounts@, i as int);
                }
                Some(self.accounts[i].data)
            },
            None => None,
        }
    }

    /// The profile record at `address`.
    pub fn open_profile(&self, address: &Key) -> (r: Result<UserProfileAccount, ProgramError>)
        requires
            self.wf(),
        ensures
            r == open_profile_spec(self.records(), address@),
    {
        match self.read(address) {
            None => Err(ProgramError::RecordNotFound),
            Some(AccountData::Profile(p)) => Ok(p),
            Some(AccountData::PaymentLink(_)) => Err(ProgramError::TypeMismatch),
        }
    }

    /// The payment-link record at `address`.
    pub fn open_payment_link(&self, address: &Key) -> (r: Result<PaymentLinkAccount, ProgramError>)
        requires
            self.wf(),
        ensures
            r == open_payment_link_spec(self.records(), address@),
    {
        match self.read(address) {
            None => Err(ProgramError::RecordNotFound),
            Some(AccountData::PaymentLink(l)) => Ok(l),
            Some(AccountData::Profile(_)) => Err(ProgramError::TypeMismatch),
        }
    }

    /// Replaces the record at `address`, keeping its deposit.
    pub fn write(&mut self, address: &Key, data: AccountData)
        requires
            old(self).wf(),
            old(self).records().contains_key(address@),
        ensures
            final(self).wf(),
            final(self).program_id_spec() == old(self).program_id_spec(),
            final(self).records() == old(self).records().insert(
                address@,
                (data, old(self).records()[address@].1),
            ),
    {
        match self.position(address) {
            Some(i) => {
                let e = StoredAccount { address: *address, data, lamports: self.accounts[i].lamports };
                proof {
                    lemma_entry_at(self.accounts@, i as int);
                    lemma_update(self.accounts@, i as int, e);
                }
                self.accounts.set(i, e);
            },
            None => {},
        }
    }

    /// Destroys the record at `address` and hands back its deposit.
    pub fn close(&mut self, address: &Key) -> (r: Option<u64>)
        requires
            old(self).wf(),
        ensures
            final(self).wf(),
            final(self).program_id_spec() == old(self).program_id_spec(),
            match r {
                Some(l) => old(self).records().contains_key(address@)
                    && l == old(self).records()[address@].1
                    && final(self).records() == old(self).records().remove(address@),
                None => !old(self).records().contains_key(address@)
                    && final(self).records() == old(self).records(),
            },
    {
        match self.position(address) {
            Some(i) => {
                proof {
                    lemma_entry_at(self.accounts@, i as int);
                    lemma_remove(self.accounts@, i as int);
                }
                let e = self.accounts.remove(i);
                Some(e.lamports)
            },
            None => None,
        }
    }
}

/// Opening `a` as a profile: absent, of the other type, or the profile.
pub open spec fn open_profile_spec(m: StoreMap, a: Seq<u8>) -> Result<UserProfileAccount, ProgramError> {
    if !m.contains_key(a) {
        Err(ProgramError::RecordNotFound)
    } else {
        match m[a].0 {
            AccountData::Profile(p) => Ok(p),
            AccountData::PaymentLink(_) => Err(ProgramError::TypeMismatch),
        }
    }
}

/// Opening `a` as a payment link: absent, of the other type, or the link.
pub open spec fn open_payment_link_spec(m: StoreMap, a: Seq<u8>) -> Result<PaymentLinkAccount, ProgramError> {
    if !m.contains_key(a) {
        Err(ProgramError::RecordNotFound)
    } else {
        match m[a].0 {
            AccountData::PaymentLink(l) => Ok(l),
            AccountData::Profile(_) => Err(ProgramError::TypeMismatch),
        }
    }
}

} // verus!
