use vstd::prelude::*;
use crate::types::{Address, Word, AccountInfo, AccountView};

verus! {

/// The values of a list of cached accounts, in order.
pub open spec fn view_entries(s: Seq<(Address, AccountInfo)>) -> Seq<(Address, AccountView)> {
    s.map_values(|e: (Address, AccountInfo)| (e.0, e.1@))
}

/// The account that a list of entries gives for `a`: the latest entry wins.
pub open spec fn find_account(s: Seq<(Address, AccountView)>, a: Address) -> Option<AccountView>
    decreases s.len(),
{
    if s.len() == 0 {
        None
    } else if s.last().0 == a {
        Some(s.last().1)
    } else {
        find_account(s.drop_last(), a)
    }
}

/// The storage value that a list of cells gives for slot `k` of `a`: the latest
/// cell wins.
pub open spec fn find_slot(s: Seq<(Address, Word, Word)>, a: Address, k: Word) -> Option<Word>
    decreases s.len(),
{
    if s.len() == 0 {
        None
    } else if s.last().0 == a && s.last().1 == k {
        Some(s.last().2)
    } else {
        find_slot(s.drop_last(), a, k)
    }
}

/// Entries written after `s` shadow those of `s`.
pub proof fn lemma_find_account_concat(s: Seq<(Address, AccountView)>, t: Seq<(Address, AccountView)>, a: Address)
    ensures
        find_account(s + t, a) == (match find_account(t, a) {
            Some(v) => Some(v),
            None => find_account(s, a),
        }),
    decreases t.len(),
{
    if t.len() == 0 {
        assert(s + t =~= s);
    } else {
        assert((s + t).drop_last() =~= s + t.drop_last());
        lemma_find_account_concat(s, t.drop_last(), a);
    }
}

/// Cells written after `s` shadow those of `s`.
pub proof fn lemma_find_slot_concat(s: Seq<(Address, Word, Word)>, t: Seq<(Address, Word, Word)>, a: Address, k: Word)
    ensures
        find_slot(s + t, a, k) == (match find_slot(t, a, k) {
            Some(v) => Some(v),
            None => find_slot(s, a, k),
        }),
    decreases t.len(),
{
    if t.len() == 0 {
        assert(s + t =~= s);
    } else {
        assert((s + t).drop_last() =~= s + t.drop_last());
        lemma_find_slot_concat(s, t.drop_last(), a, k);
    }
}

/// The state changes that one successful transaction commits.
pub struct StateChanges {
    pub accounts: Vec<(Address, AccountInfo)>,
    pub storage: Vec<(Address, Word, Word)>,
}

/// A local, mutable view of remote chain state: accounts and storage cells
/// that were fetched once and memoized, or overridden locally.
///
/// Reads consult the local entries only; what is missing there is fetched by
/// the caller from the remote source and handed to `memoize_account` or
/// `memoize_storage`.
pub struct Overlay {
    accounts: Vec<(Address, AccountInfo)>,
    storage: Vec<(Address, Word, Word)>,
}

/// The mathematical value of an overlay.
pub struct OverlayView {
    pub accounts: Seq<(Address, AccountView)>,
    pub storage: Seq<(Address, Word, Word)>,
}

impl View for Overlay {
    type V = OverlayView;

    closed spec fn view(&self) -> OverlayView {
        OverlayView { accounts: view_entries(self.accounts@), storage: self.storage@ }
    }
}

impl OverlayView {
    /// The account at `a`, if the overlay holds it.
    pub open spec fn account(self, a: Address) -> Option<AccountView> {
        find_account(self.accounts, a)
    }

    /// The value of slot `k` of `a`, if the overlay holds it.
    pub open spec fn slot(self, a: Address, k: Word) -> Option<Word> {
        find_slot(self.storage, a, k)
    }

    /// The overlay with the account at `a` replaced by `v`.
    pub open spec fn with_account(self, a: Address, v: AccountView) -> OverlayView {
        OverlayView { accounts: self.accounts.push((a, v)), storage: self.storage }
    }

    /// The overlay with slot `k` of `a` set to `v`.
    pub open spec fn with_slot(self, a: Address, k: Word, v: Word) -> OverlayView {
        OverlayView { accounts: self.accounts, storage: self.storage.push((a, k, v)) }
    }

    /// The account at `a` after its balance is forced to `amount`.
    pub open spec fn balance_override(self, a: Address, amount: u128) -> AccountView {
        match self.account(a) {
            Some(v) => AccountView { balance: amount, ..v },
            None => AccountView { balance: amount, nonce: 0, code: None },
        }
    }

    /// The account at `a` after its code is forced to `code`.
    pub open spec fn code_override(self, a: Address, code: Seq<u8>) -> AccountView {
        match self.account(a) {
            Some(v) => AccountView { code: Some(code), ..v },
            None => AccountView { balance: 0, nonce: 0, code: Some(code) },
        }
    }
}

/// Pushing an entry makes it the one that reads of its address see.
pub proof fn lemma_with_account(o: OverlayView, a: Address, v: AccountView, b: Address)
    ensures
        o.with_account(a, v).account(b) == (if b == a { Some(v) } else { o.account(b) }),
        o.with_account(a, v).storage == o.storage,
{
    assert(o.accounts.push((a, v)).drop_last() =~= o.accounts);
}

/// Pushing a cell makes it the one that reads of its slot see.
pub proof fn lemma_with_slot(o: OverlayView, a: Address, k: Word, v: Word, b: Address, j: Word)
    ensures
        o.with_slot(a, k, v).slot(b, j) == (if b == a && j == k { Some(v) } else { o.slot(b, j) }),
        o.with_slot(a, k, v).accounts == o.accounts,
{
    assert(o.storage.push((a, k, v)).drop_last() =~= o.storage);
}

/// Forcing the balance or the code of one account on a copy of an overlay
/// changes what the copy shows for that account alone: every other account
/// reads as it does through the original.
pub proof fn lemma_clone_isolation(base: OverlayView, copy: OverlayView, a: Address, amount: u128, code: Seq<u8>, b: Address)
    requires
        copy == base,
    ensures
        b != a ==> copy.with_account(a, copy.balance_override(a, amount)).account(b) == base.account(b),
        b != a ==> copy.with_account(a, copy.code_override(a, code)).account(b) == base.account(b),
{
    lemma_with_account(copy, a, copy.balance_override(a, amount), b);
    lemma_with_account(copy, a, copy.code_override(a, code), b);
}

/// After code `c` is injected at `x` in the base overlay, every copy of it
/// shows `x` running `c`; forcing the balance of `x` or of any account on that
/// copy keeps it so.
pub proof fn lemma_injected_code_persists(base: OverlayView, x: Address, c: Seq<u8>, copy: OverlayView, y: Address, amount: u128)
    requires
        copy == base.with_account(x, base.code_override(x, c)),
    ensures
        copy.account(x) matches Some(v) && v.code == Some(c),
        copy.with_account(y, copy.balance_override(y, amount)).account(x) matches Some(v) && v.code == Some(c),
{
    lemma_with_account(base, x, base.code_override(x, c), x);
    lemma_with_account(copy, y, copy.balance_override(y, amount), x);
}

impl Overlay {
    /// An overlay that holds nothing yet.
    pub fn new() -> (r: Overlay)
        ensures
            r@.accounts.len() == 0,
            r@.storage.len() == 0,
            forall|a: Address| r@.account(a) is None,
    {
        Overlay { accounts: Vec::new(), storage: Vec::new() }
    }

    /// The position of the entry that reads of `a` see.
    fn find_index(&self, a: Address) -> (r: Option<usize>)
        ensures
            r is None ==> self@.account(a) is None,
            r matches Some(i) ==> i < self.accounts.len() && self.accounts@[i as int].0 == a
                && self@.account(a) == Some(self.accounts@[i as int].1@),
    {
        let ghost vs = view_entries(self.accounts@);
        proof {
            assert(vs.subrange(0, vs.len() as int) =~= vs);
        }
        let mut i: usize = self.accounts.len();
        while i > 0
            invariant
                i <= self.accounts.len(),
                vs == view_entries(self.accounts@),
                find_account(vs, a) == find_account(vs.subrange(0, i as int), a),
            decreases i,
        {
            proof {
                assert(vs.subrange(0, i as int).drop_last() =~= vs.subrange(0, i - 1));
            }
            i = i - 1;
            if self.accounts[i].0 == a {
                return Some(i);
            }
        }
        proof {
            assert(vs.subrange(0, 0).len() == 0);
        }
        None
    }

    /// The account at `a`, if the overlay holds it (a copy).
    pub fn account(&self, a: Address) -> (r: Option<AccountInfo>)
        ensures
            r is None <==> self@.account(a) is None,
            r matches Some(info) ==> self@.account(a) == Some(info@),
    {
        match self.find_index(a) {
            Some(i) => Some(self.accounts[i].1.duplicate()),
            None => None,
        }
    }

    /// Whether the account at `a` is held locally (fetched or overridden).
    pub fn holds_account(&self, a: Address) -> (r: bool)
        ensures
            r == self@.account(a) is Some,
    {
        self.find_index(a).is_some()
    }

    /// Replaces the account at `a` by `info`.
    fn put_account(&mut self, a: Address, info: AccountInfo)
        ensures
            final(self)@ == old(self)@.with_account(a, info@),
    {
        self.accounts.push((a, info));
        proof {
            assert(view_entries(self.accounts@) =~= old(self)@.accounts.push((a, info@)));
        }
    }

    /// Memoizes an account fetched from the remote source. An account that is
    /// already held is kept: once memoized, a read never changes by a fetch.
    pub fn memoize_account(&mut self, a: Address, info: AccountInfo)
        ensures
            old(self)@.account(a) is Some ==> final(self)@ == old(self)@,
            old(self)@.account(a) is None ==> final(self)@ == old(self)@.with_account(a, info@),
            forall|b: Address| #[trigger] final(self)@.account(b) == (if b == a && old(self)@.account(a) is None {
                Some(info@)
            } else {
                old(self)@.account(b)
            }),
    {
        if !self.holds_account(a) {
            self.put_account(a, info);
        }
        proof {
            assert forall|b: Address| #[trigger] final(self)@.account(b) == (if b == a && old(self)@.account(a) is None {
                Some(info@)
            } else {
                old(self)@.account(b)
            }) by {
                if old(self)@.account(a) is None {
                    lemma_with_account(old(self)@, a, info@, b);
                }
            }
        }
    }

    /// Forces the balance of `a` to `amount`. An account that is not held is
    /// created with nonce zero and no code; otherwise only its balance changes.
    pub fn override_balance(&mut self, a: Address, amount: u128)
        ensures
            final(self)@ == old(self)@.with_account(a, old(self)@.balance_override(a, amount)),
            forall|b: Address| #[trigger] final(self)@.account(b) == (if b == a {
                Some(old(self)@.balance_override(a, amount))
            } else {
                old(self)@.account(b)
            }),
    {
        let info = match self.account(a) {
            Some(acc) => AccountInfo { balance: amount, nonce: acc.nonce, code: acc.code },
            None => AccountInfo { balance: amount, nonce: 0, code: None },
        };
        let ghost v = info@;
        self.put_account(a, info);
        proof {
            assert(v == old(self)@.balance_override(a, amount));
            assert forall|b: Address| #[trigger] final(self)@.account(b) == (if b == a {
                Some(old(self)@.balance_override(a, amount))
            } else {
                old(self)@.account(b)
            }) by {
                lemma_with_account(old(self)@, a, v, b);
            }
        }
    }

    /// Forces the code of `a` to `code`, outside the rules of transaction
    /// execution. An account that is not held is created with zero balance and
    /// nonce.
    pub fn override_code(&mut self, a: Address, code: Vec<u8>)
        ensures
            final(self)@ == old(self)@.with_account(a, old(self)@.code_override(a, code@)),
            forall|b: Address| #[trigger] final(self)@.account(b) == (if b == a {
                Some(old(self)@.code_override(a, code@))
            } else {
                old(self)@.account(b)
            }),
    {
        let ghost c = code@;
        let info = match self.account(a) {
            Some(acc) => AccountInfo { balance: acc.balance, nonce: acc.nonce, code: Some(code) },
            None => AccountInfo { balance: 0, nonce: 0, code: Some(code) },
        };
        let ghost v = info@;
        self.put_account(a, info);
        proof {
            assert(v == old(self)@.code_override(a, c));
            assert forall|b: Address| #[trigger] final(self)@.account(b) == (if b == a {
                Some(old(self)@.code_override(a, c))
            } else {
                old(self)@.account(b)
            }) by {
                lemma_with_account(old(self)@, a, v, b);
            }
        }
    }

    /// The balance of `a`, if the overlay holds the account.
    pub fn balance_of(&self, a: Address) -> (r: Option<u128>)
        ensures
            r == (match self@.account(a) {
                Some(v) => Some(v.balance),
                None => None,
            }),
    {
        match self.find_index(a) {
            Some(i) => Some(self.accounts[i].1.balance),
            None => None,
        }
    }

    /// The nonce of `a`, if the overlay holds the account.
    pub fn nonce_of(&self, a: Address) -> (r: Option<u64>)
        ensures
            r == (match self@.account(a) {
                Some(v) => Some(v.nonce),
                None => None,
            }),
    {
        match self.find_index(a) {
            Some(i) => Some(self.accounts[i].1.nonce),
            None => None,
        }
    }

    /// The value of slot `k` of `a`, if the overlay holds it.
    pub fn read_storage(&self, a: Address, k: Word) -> (r: Option<Word>)
        ensures
            r == self@.slot(a, k),
    {
        let ghost s = self.storage@;
        proof {
            assert(s.subrange(0, s.len() as int) =~= s);
        }
        let mut i: usize = self.storage.len();
        while i > 0
            invariant
                i <= self.storage.len(),
                s == self.storage@,
                find_slot(s, a, k) == find_slot(s.subrange(0, i as int), a, k),
            decreases i,
        {
            proof {
                assert(s.subrange(0, i as int).drop_last() =~= s.subrange(0, i - 1));
            }
            i = i - 1;
            let cell = self.storage[i];
            if cell.0 == a && cell.1 == k {
                return Some(cell.2);
            }
        }
        proof {
            assert(s.subrange(0, 0).len() == 0);
        }
        None
    }

    /// Sets slot `k` of `a` to `v`.
    pub fn write_storage(&mut self, a: Address, k: Word, v: Word)
        ensures
            final(self)@ == old(self)@.with_slot(a, k, v),
            forall|b: Address, j: Word| #[trigger] final(self)@.slot(b, j) == (if b == a && j == k {
                Some(v)
            } else {
                old(self)@.slot(b, j)
            }),
    {
        self.storage.push((a, k, v));
        proof {
            assert(self@.storage =~= old(self)@.storage.push((a, k, v)));
            assert(view_entries(self.accounts@) =~= view_entries(old(self).accounts@));
            assert forall|b: Address, j: Word| #[trigger] final(self)@.slot(b, j) == (if b == a && j == k {
                Some(v)
            } else {
                old(self)@.slot(b, j)
            }) by {
                lemma_with_slot(old(self)@, a, k, v, b, j);
            }
        }
    }

    /// Memoizes a storage value fetched from the remote source; a slot that is
    /// already held is kept.
    pub fn memoize_storage(&mut self, a: Address, k: Word, v: Word)
        ensures
            old(self)@.slot(a, k) is Some ==> final(self)@ == old(self)@,
            old(self)@.slot(a, k) is None ==> final(self)@ == old(self)@.with_slot(a, k, v),
    {
        if self.read_storage(a, k).is_none() {
            self.write_storage(a, k, v);
        }
    }

    /// Commits the state changes of a successful transaction: each written
    /// account and cell shadows what the overlay held before.
    pub fn commit(&mut self, changes: &StateChanges)
        ensures
            final(self)@.accounts == old(self)@.accounts + view_entries(changes.accounts@),
            final(self)@.storage == old(self)@.storage + changes.storage@,
            forall|b: Address| #[trigger] final(self)@.account(b) == (match find_account(view_entries(changes.accounts@), b) {
                Some(v) => Some(v),
                None => old(self)@.account(b),
            }),
            forall|b: Address, j: Word| #[trigger] final(self)@.slot(b, j) == (match find_slot(changes.storage@, b, j) {
                Some(v) => Some(v),
                None => old(self)@.slot(b, j),
            }),
    {
        let ghost cv = view_entries(changes.accounts@);
        let mut i: usize = 0;
        while i < changes.accounts.len()
            invariant
                i <= changes.accounts.len(),
                cv == view_entries(changes.accounts@),
                self@.accounts == old(self)@.accounts + cv.subrange(0, i as int),
                self@.storage == old(self)@.storage,
            decreases changes.accounts.len() - i,
        {
            let a = changes.accounts[i].0;
            let info = changes.accounts[i].1.duplicate();
            self.put_account(a, info);
            i = i + 1;
            proof {
                assert(self@.accounts =~= old(self)@.accounts + cv.subrange(0, i as int));
            }
        }
        let mut j: usize = 0;
        while j < changes.storage.len()
            invariant
                j <= changes.storage.len(),
                self@.accounts == old(self)@.accounts + cv,
                self@.storage == old(self)@.storage + changes.storage@.subrange(0, j as int),
            decreases changes.storage.len() - j,
        {
            let cell = changes.storage[j];
            self.storage.push(cell);
            j = j + 1;
            proof {
                assert(view_entries(self.accounts@) == self@.accounts);
                assert(self@.storage =~= old(self)@.storage + changes.storage@.subrange(0, j as int));
            }
        }
        proof {
            assert(cv.subrange(0, cv.len() as int) =~= cv);
            assert(changes.storage@.subrange(0, j as int) =~= changes.storage@);
            assert forall|b: Address| #[trigger] final(self)@.account(b) == (match find_account(cv, b) {
                Some(v) => Some(v),
                None => old(self)@.account(b),
            }) by {
                lemma_find_account_concat(old(self)@.accounts, cv, b);
            }
            assert forall|b: Address, k: Word| #[trigger] final(self)@.slot(b, k) == (match find_slot(changes.storage@, b, k) {
                Some(v) => Some(v),
                None => old(self)@.slot(b, k),
            }) by {
                lemma_find_slot_concat(old(self)@.storage, changes.storage@, b, k);
            }
        }
    }

    /// An independent copy of the overlay: writes to the copy are never seen
    /// through the original, nor the other way round.
    pub fn duplicate(&self) -> (r: Overlay)
        ensures
            r@ == self@,
    {
        let mut accounts: Vec<(Address, AccountInfo)> = Vec::with_capacity(self.accounts.len());
        let mut i: usize = 0;
        while i < self.accounts.len()
            invariant
                i <= self.accounts.len(),
                view_entries(accounts@) == view_entries(self.accounts@).subrange(0, i as int),
            decreases self.accounts.len() - i,
        {
            let a = self.accounts[i].0;
            let info = self.accounts[i].1.duplicate();
            let ghost prev = accounts@;
            accounts.push((a, info));
            proof {
                assert(accounts@ == prev.push((a, info)));
                assert(view_entries(accounts@) =~= view_entries(prev).push((a, info@)));
            }
            i = i + 1;
            proof {
                assert(view_entries(accounts@) =~= view_entries(self.accounts@).subrange(0, i as int));
            }
        }
        let mut storage: Vec<(Address, Word, Word)> = Vec::with_capacity(self.storage.len());
        let mut j: usize = 0;
        while j < self.storage.len()
            invariant
                j <= self.storage.len(),
                storage@ == self.storage@.subrange(0, j as int),
            decreases self.storage.len() - j,
        {
            storage.push(self.storage[j]);
            j = j + 1;
            proof {
                assert(storage@ =~= self.storage@.subrange(0, j as int));
            }
        }
        proof {
            assert(view_entries(accounts@) =~= view_entries(self.accounts@));
            assert(storage@ =~= self.storage@);
        }
        Overlay { accounts, storage }
    }
}

} // verus!
