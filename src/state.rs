//! The in-memory credential cache.
use vstd::prelude::*;
use crate::account::{copy_opt, CachedAccount};

verus! {

/// The view of an optional string.
pub open spec fn opt_view(o: Option<String>) -> Option<Seq<char>> {
    match o {
        Some(s) => Some(s@),
        None => None,
    }
}

/// No two accounts of `s` share an id.
pub open spec fn ids_unique(s: Seq<CachedAccount>) -> bool {
    forall|i: int, j: int|
        0 <= i < s.len() && 0 <= j < s.len() && i != j ==> #[trigger] s[i].id@ != #[trigger] s[j].id@
}

/// Some account of `s` has the id `id`.
pub open spec fn has_id(s: Seq<CachedAccount>, id: Seq<char>) -> bool {
    exists|i: int| 0 <= i < s.len() && #[trigger] s[i].id@ == id
}

/// The position of the account with id `id` (meaningful when `has_id(s, id)`).
pub open spec fn index_of_id(s: Seq<CachedAccount>, id: Seq<char>) -> int {
    choose|i: int| 0 <= i < s.len() && #[trigger] s[i].id@ == id
}

/// The account with id `id`, if there is one.
pub open spec fn lookup(s: Seq<CachedAccount>, id: Seq<char>) -> Option<CachedAccount> {
    if has_id(s, id) {
        Some(s[index_of_id(s, id)])
    } else {
        None
    }
}

/// Inserts `a`, or replaces in place the account that has its id.
pub open spec fn upsert(s: Seq<CachedAccount>, a: CachedAccount) -> Seq<CachedAccount> {
    if has_id(s, a.id@) {
        s.update(index_of_id(s, a.id@), a)
    } else {
        s.push(a)
    }
}

/// Drops the account with id `id`, if there is one.
pub open spec fn without_id(s: Seq<CachedAccount>, id: Seq<char>) -> Seq<CachedAccount> {
    if has_id(s, id) {
        s.remove(index_of_id(s, id))
    } else {
        s
    }
}

/// `b` is `a` with both display-name fields set to `name`.
pub open spec fn renamed(a: CachedAccount, b: CachedAccount, name: Seq<char>) -> bool {
    &&& b.username@ == name
    &&& opt_view(b.name) == Some(name)
    &&& b.id == a.id
    &&& b.email == a.email
    &&& b.scope_type == a.scope_type
    &&& b.team_name == a.team_name
    &&& b.team_slug == a.team_slug
    &&& b.token == a.token
    &&& b.provider == a.provider
}

/// In a sequence with unique ids, `index_of_id` finds the one position holding that id.
pub proof fn lemma_index_of_id(s: Seq<CachedAccount>, i: int)
    requires
        ids_unique(s),
        0 <= i < s.len(),
    ensures
        has_id(s, s[i].id@),
        index_of_id(s, s[i].id@) == i,
{
    assert(has_id(s, s[i].id@));
}

/// What the cache holds, seen as mathematical values.
pub struct CacheModel {
    /// The cached accounts, in the order they were first added.
    pub accounts: Seq<CachedAccount>,
    /// Token of each account id.
    pub tokens: Map<Seq<char>, Seq<char>>,
    /// The id of the active account.
    pub active: Option<Seq<char>>,
    /// Whether the cache has been filled from the secure store.
    pub initialized: bool,
}

impl CacheModel {
    /// Account ids are unique.
    pub open spec fn valid(self) -> bool {
        ids_unique(self.accounts)
    }
}

/// The cache after removing the account `id` and its token.
pub open spec fn after_remove(m: CacheModel, id: Seq<char>) -> CacheModel {
    CacheModel { tokens: m.tokens.remove(id), accounts: without_id(m.accounts, id), ..m }
}

/// One entry of the token table.
#[derive(Debug, Clone)]
pub struct TokenEntry {
    pub account_id: String,
    pub token: String,
}

/// The credential cache: accounts, their tokens, the active account and
/// whether the cache has been filled from the secure store.
pub struct AppState {
    tokens: Vec<TokenEntry>,
    token_map: Ghost<Map<Seq<char>, Seq<char>>>,
    accounts: Vec<CachedAccount>,
    active_account_id: Option<String>,
    initialized: bool,
}

impl View for AppState {
    type V = CacheModel;

    closed spec fn view(&self) -> CacheModel {
        CacheModel {
            accounts: self.accounts@,
            tokens: self.token_map@,
            active: opt_view(self.active_account_id),
            initialized: self.initialized,
        }
    }
}

impl AppState {
    /// The token table holds one entry per key, and agrees with the token map.
    pub closed spec fn tokens_ok(&self) -> bool {
        &&& forall|i: int, j: int|
            0 <= i < self.tokens@.len() && 0 <= j < self.tokens@.len() && i != j
                ==> #[trigger] self.tokens@[i].account_id@ != #[trigger] self.tokens@[j].account_id@
        &&& forall|i: int|
            0 <= i < self.tokens@.len() ==> {
                &&& self.token_map@.contains_key(#[trigger] self.tokens@[i].account_id@)
                &&& self.token_map@[self.tokens@[i].account_id@] == self.tokens@[i].token@
            }
        &&& forall|k: Seq<char>|
            #[trigger] self.token_map@.contains_key(k) ==> exists|i: int|
                0 <= i < self.tokens@.len() && #[trigger] self.tokens@[i].account_id@ == k
    }

    /// Well-formedness: account ids are unique and the token table is coherent.
    pub open spec fn wf(&self) -> bool {
        self@.valid() && self.tokens_ok()
    }

    /// An empty, uninitialized cache.
    pub fn new() -> (r: AppState)
        ensures
            r.wf(),
            r@.accounts.len() == 0,
            r@.tokens.is_empty(),
            r@.active is None,
            !r@.initialized,
    {
        AppState {
            tokens: Vec::new(),
            token_map: Ghost(Map::empty()),
            accounts: Vec::new(),
            active_account_id: None,
            initialized: false,
        }
    }

    fn token_position(&self, key: &String) -> (r: Option<usize>)
        requires
            self.wf(),
        ensures
            match r {
                Some(i) => i < self.tokens@.len() && self.tokens@[i as int].account_id@ == key@,
                None => !self@.tokens.contains_key(key@),
            },
    {
        let mut i: usize = 0;
        while i < self.tokens.len()
            invariant
                self.wf(),
                i <= self.tokens@.len(),
                forall|j: int| 0 <= j < i ==> self.tokens@[j].account_id@ != key@,
            decreases self.tokens@.len() - i,
        {
            if self.tokens[i].account_id == *key {
                return Some(i);
            }
            i = i + 1;
        }
        None
    }

    fn account_position(&self, key: &String) -> (r: Option<usize>)
        requires
            self.wf(),
        ensures
            match r {
                Some(i) => i < self@.accounts.len() && has_id(self@.accounts, key@)
                    && index_of_id(self@.accounts, key@) == i as int,
                None => !has_id(self@.accounts, key@),
            },
    {
        let mut i: usize = 0;
        while i < self.accounts.len()
            invariant
                self.wf(),
                i <= self.accounts@.len(),
                forall|j: int| 0 <= j < i ==> self.accounts@[j].id@ != key@,
            decreases self.accounts@.len() - i,
        {
            if self.accounts[i].id == *key {
                proof {
                    lemma_index_of_id(self.accounts@, i as int);
                }
                return Some(i);
            }
            i = i + 1;
        }
        None
    }

    /// The token cached for `account_id`.
    pub fn get_token(&self, account_id: &str) -> (r: Option<String>)
        requires
            self.wf(),
        ensures
            opt_view(r) == (if self@.tokens.contains_key(account_id@) {
                Some(self@.tokens[account_id@])
            } else {
                None
            }),
    {
        let key = String::from_str(account_id);
        match self.token_position(&key) {
            Some(i) => Some(self.tokens[i].token.clone()),
            None => None,
        }
    }

    /// Caches `token` for `account_id`, replacing any earlier one.
    pub fn set_token(&mut self, account_id: &str, token: &str)
        requires
            old(self).wf(),
        ensures
            final(self).wf(),
            final(self)@ == (CacheModel { tokens: old(self)@.tokens.insert(account_id@, token@), ..old(self)@ }),
    {
        let key = String::from_str(account_id);
        let entry = TokenEntry { account_id: key.clone(), token: String::from_str(token) };
        let pos = self.token_position(&key);
        let ghost old_tokens = self.tokens@;
        let ghost old_map = self.token_map@;
        let ghost at: int;
        match pos {
            Some(i) => {
                self.tokens.set(i, entry);
                proof { at = i as int; }
            },
            None => {
                self.tokens.push(entry);
                proof { at = old_tokens.len() as int; }
            },
        }
        self.token_map = Ghost(old_map.insert(account_id@, token@));
        proof {
            assert(self.tokens@[at].account_id@ == account_id@);
            assert forall|k: Seq<char>| #[trigger] self.token_map@.contains_key(k) implies exists|j: int|
                0 <= j < self.tokens@.len() && #[trigger] self.tokens@[j].account_id@ == k by {
                if k != account_id@ {
                    let j = choose|j: int| 0 <= j < old_tokens.len() && #[trigger] old_tokens[j].account_id@ == k;
                    assert(self.tokens@[j].account_id@ == k);
                }
            }
            assert(self@.tokens == old(self)@.tokens.insert(account_id@, token@));
        }
    }

    /// Drops both the token and the account cached under `account_id`; an
    /// unknown id leaves the cache as it was.
    pub fn remove_token(&mut self, account_id: &str)
        requires
            old(self).wf(),
        ensures
            final(self).wf(),
            final(self)@ == after_remove(old(self)@, account_id@),
    {
        let key = String::from_str(account_id);
        let ghost old_tokens = self.tokens@;
        let ghost old_map = self.token_map@;
        let ghost old_accounts = self.accounts@;
        let pos = self.token_position(&key);
        match pos {
            Some(i) => {
                self.tokens.remove(i);
            },
            None => {},
        }
        self.token_map = Ghost(old_map.remove(account_id@));
        proof {
            // Each remaining entry comes from an entry of the old table.
            assert forall|a: int| 0 <= a < self.tokens@.len() implies {
                let a0 = match pos { Some(i) => if a < i { a } else { a + 1 }, None => a };
                &&& 0 <= a0 < old_tokens.len()
                &&& #[trigger] self.tokens@[a] == old_tokens[a0]
                &&& old_tokens[a0].account_id@ != account_id@
            } by {}
            assert forall|a: int, b: int|
                0 <= a < self.tokens@.len() && 0 <= b < self.tokens@.len() && a != b
                    implies #[trigger] self.tokens@[a].account_id@ != #[trigger] self.tokens@[b].account_id@ by {
                let a0 = match pos { Some(i) => if a < i { a } else { a + 1 }, None => a };
                let b0 = match pos { Some(i) => if b < i { b } else { b + 1 }, None => b };
                assert(self.tokens@[a] == old_tokens[a0]);
                assert(self.tokens@[b] == old_tokens[b0]);
            }
            assert forall|a: int| 0 <= a < self.tokens@.len() implies {
                &&& self.token_map@.contains_key(#[trigger] self.tokens@[a].account_id@)
                &&& self.token_map@[self.tokens@[a].account_id@] == self.tokens@[a].token@
            } by {
                let a0 = match pos { Some(i) => if a < i { a } else { a + 1 }, None => a };
                assert(self.tokens@[a] == old_tokens[a0]);
            }
            assert forall|k: Seq<char>| #[trigger] self.token_map@.contains_key(k) implies exists|j: int|
                0 <= j < self.tokens@.len() && #[trigger] self.tokens@[j].account_id@ == k by {
                let j = choose|j: int| 0 <= j < old_tokens.len() && #[trigger] old_tokens[j].account_id@ == k;
                match pos {
                    Some(i) => {
                        let j1 = if j < i { j } else { j - 1 };
                        assert(self.tokens@[j1] == old_tokens[j]);
                    },
                    None => {
                        assert(self.tokens@[j] == old_tokens[j]);
                    },
                }
            }
        }
        let ghost tk = self.tokens;
        let ghost tm = self.token_map;
        let apos = self.account_position(&key);
        match apos {
            Some(i) => {
                self.accounts.remove(i);
                proof {
                    assert forall|a: int, b: int|
                        0 <= a < self.accounts@.len() && 0 <= b < self.accounts@.len() && a != b
                            implies #[trigger] self.accounts@[a].id@ != #[trigger] self.accounts@[b].id@ by {
                        let a0 = if a < i { a } else { a + 1 };
                        let b0 = if b < i { b } else { b + 1 };
                        assert(self.accounts@[a] == old_accounts[a0]);
                        assert(self.accounts@[b] == old_accounts[b0]);
                    }
                }
            },
            None => {},
        }
        // The token table was left alone by the account removal.
        assert(self.tokens == tk && self.token_map == tm);
    }

    /// The cached account with id `account_id`.
    pub fn get_account(&self, account_id: &str) -> (r: Option<CachedAccount>)
        requires
            self.wf(),
        ensures
            r == lookup(self@.accounts, account_id@),
    {
        let key = String::from_str(account_id);
        match self.account_position(&key) {
            Some(i) => Some(self.accounts[i].duplicate()),
            None => None,
        }
    }

    /// Adds `account`, or replaces in place the cached account with the same id.
    pub fn set_account(&mut self, account: CachedAccount)
        requires
            old(self).wf(),
        ensures
            final(self).wf(),
            final(self)@ == (CacheModel { accounts: upsert(old(self)@.accounts, account), ..old(self)@ }),
    {
        let ghost old_accounts = self.accounts@;
        let ghost tk = self.tokens;
        let ghost tm = self.token_map;
        let pos = self.account_position(&account.id);
        match pos {
            Some(i) => {
                self.accounts.set(i, account);
                proof {
                    assert forall|a: int, b: int|
                        0 <= a < self.accounts@.len() && 0 <= b < self.accounts@.len() && a != b
                            implies #[trigger] self.accounts@[a].id@ != #[trigger] self.accounts@[b].id@ by {
                        if a != i && b != i {
                            assert(self.accounts@[a] == old_accounts[a]);
                            assert(self.accounts@[b] == old_accounts[b]);
                        } else if a == i {
                            assert(self.accounts@[b] == old_accounts[b]);
                        } else {
                            assert(self.accounts@[a] == old_accounts[a]);
                        }
                    }
                }
            },
            None => {
                self.accounts.push(account);
                proof {
                    assert forall|a: int, b: int|
                        0 <= a < self.accounts@.len() && 0 <= b < self.accounts@.len() && a != b
                            implies #[trigger] self.accounts@[a].id@ != #[trigger] self.accounts@[b].id@ by {
                        if a < old_accounts.len() && b < old_accounts.len() {
                            assert(self.accounts@[a] == old_accounts[a]);
                            assert(self.accounts@[b] == old_accounts[b]);
                        } else if a < old_accounts.len() {
                            assert(self.accounts@[a] == old_accounts[a]);
                        } else {
                            assert(self.accounts@[b] == old_accounts[b]);
                        }
                    }
                }
            },
        }
        // The token table was left alone.
        assert(self.tokens == tk && self.token_map == tm);
    }

    /// Every cached account, in the order they were first added.
    pub fn get_all_accounts(&self) -> (r: Vec<CachedAccount>)
        requires
            self.wf(),
        ensures
            r@ == self@.accounts,
    {
        let mut r: Vec<CachedAccount> = Vec::new();
        let mut i: usize = 0;
        while i < self.accounts.len()
            invariant
                i <= self.accounts@.len(),
                r@ == self.accounts@.take(i as int),
            decreases self.accounts@.len() - i,
        {
            r.push(self.accounts[i].duplicate());
            proof {
                assert(self.accounts@.take(i as int + 1) == self.accounts@.take(i as int).push(self.accounts@[i as int]));
            }
            i = i + 1;
        }
        proof {
            assert(self.accounts@.take(i as int) == self.accounts@);
        }
        r
    }

    /// The id of the active account.
    pub fn get_active_account_id(&self) -> (r: Option<String>)
        ensures
            opt_view(r) == self@.active,
    {
        copy_opt(&self.active_account_id)
    }

    /// Sets (or clears) the active account.
    pub fn set_active_account_id(&mut self, id: Option<String>)
        requires
            old(self).wf(),
        ensures
            final(self).wf(),
            final(self)@ == (CacheModel { active: opt_view(id), ..old(self)@ }),
    {
        self.active_account_id = id;
        // The token table was left alone.
        assert(self.tokens == old(self).tokens);
    }

    /// Whether the cache has been filled from the secure store.
    pub fn is_initialized(&self) -> (r: bool)
        ensures
            r == self@.initialized,
    {
        self.initialized
    }

    /// Marks the cache as filled (or not) from the secure store.
    pub fn set_initialized(&mut self, val: bool)
        requires
            old(self).wf(),
        ensures
            final(self).wf(),
            final(self)@ == (CacheModel { initialized: val, ..old(self)@ }),
    {
        self.initialized = val;
        // The token table was left alone.
        assert(self.tokens == old(self).tokens);
    }

    /// Sets both display-name fields of the account `account_id` to `new_name`;
    /// an unknown id leaves the cache as it was.
    pub fn rename_account(&mut self, account_id: &str, new_name: &str)
        requires
            old(self).wf(),
        ensures
            final(self).wf(),
            final(self)@.tokens == old(self)@.tokens,
            final(self)@.active == old(self)@.active,
            final(self)@.initialized == old(self)@.initialized,
            final(self)@.accounts.len() == old(self)@.accounts.len(),
            has_id(old(self)@.accounts, account_id@) ==> {
                let i = index_of_id(old(self)@.accounts, account_id@);
                &&& renamed(old(self)@.accounts[i], final(self)@.accounts[i], new_name@)
                &&& forall|j: int| 0 <= j < old(self)@.accounts.len() && j != i
                    ==> final(self)@.accounts[j] == old(self)@.accounts[j]
            },
            !has_id(old(self)@.accounts, account_id@) ==> final(self)@.accounts == old(self)@.accounts,
    {
        let key = String::from_str(account_id);
        let ghost old_accounts = self.accounts@;
        let ghost tk = self.tokens;
        let ghost tm = self.token_map;
        match self.account_position(&key) {
            Some(i) => {
                let mut a = self.accounts[i].duplicate();
                a.name = Some(String::from_str(new_name));
                a.username = String::from_str(new_name);
                self.accounts.set(i, a);
                proof {
                    assert forall|x: int, y: int|
                        0 <= x < self.accounts@.len() && 0 <= y < self.accounts@.len() && x != y
                            implies #[trigger] self.accounts@[x].id@ != #[trigger] self.accounts@[y].id@ by {
                        assert(self.accounts@[x].id == old_accounts[x].id);
                        assert(self.accounts@[y].id == old_accounts[y].id);
                    }
                }
            },
            None => {},
        }
        // The token table was left alone.
        assert(self.tokens == tk && self.token_map == tm);
    }
}

/// Adding an account whose id is already cached replaces that account in
/// place: the number of accounts is unchanged, ids stay unique, and a lookup
/// of the id gives the new account.
pub proof fn lemma_upsert_replaces(s: Seq<CachedAccount>, a: CachedAccount)
    requires
        ids_unique(s),
        has_id(s, a.id@),
    ensures
        upsert(s, a).len() == s.len(),
        ids_unique(upsert(s, a)),
        lookup(upsert(s, a), a.id@) == Some(a),
{
    let i = index_of_id(s, a.id@);
    let u = upsert(s, a);
    assert forall|x: int, y: int| 0 <= x < u.len() && 0 <= y < u.len() && x != y
        implies #[trigger] u[x].id@ != #[trigger] u[y].id@ by {
        if x != i && y != i {
            assert(u[x] == s[x] && u[y] == s[y]);
        } else if x == i {
            assert(u[y] == s[y]);
        } else {
            assert(u[x] == s[x]);
        }
    }
    lemma_index_of_id(u, i);
}

/// Adding an account whose id is not cached appends it.
pub proof fn lemma_upsert_appends(s: Seq<CachedAccount>, a: CachedAccount)
    requires
        ids_unique(s),
        !has_id(s, a.id@),
    ensures
        upsert(s, a) == s.push(a),
        ids_unique(upsert(s, a)),
{
    let u = s.push(a);
    assert forall|x: int, y: int| 0 <= x < u.len() && 0 <= y < u.len() && x != y
        implies #[trigger] u[x].id@ != #[trigger] u[y].id@ by {
        if x < s.len() && y < s.len() {
            assert(u[x] == s[x] && u[y] == s[y]);
        } else if x < s.len() {
            assert(u[x] == s[x]);
        } else {
            assert(u[y] == s[y]);
        }
    }
}

/// Removing an account is idempotent, and removing an id that is not
/// cached changes nothing: it never fails, however often it is repeated.
pub proof fn lemma_remove_idempotent(m: CacheModel, id: Seq<char>)
    requires
        m.valid(),
    ensures
        after_remove(m, id).valid(),
        after_remove(after_remove(m, id), id) == after_remove(m, id),
        !has_id(m.accounts, id) && !m.tokens.contains_key(id) ==> after_remove(m, id) == m,
{
    let s = m.accounts;
    let r = without_id(s, id);
    if has_id(s, id) {
        let i = index_of_id(s, id);
        assert forall|x: int| 0 <= x < r.len() implies #[trigger] r[x].id@ != id by {
            let x0 = if x < i { x } else { x + 1 };
            assert(r[x] == s[x0]);
        }
        assert forall|x: int, y: int| 0 <= x < r.len() && 0 <= y < r.len() && x != y
            implies #[trigger] r[x].id@ != #[trigger] r[y].id@ by {
            let x0 = if x < i { x } else { x + 1 };
            let y0 = if y < i { y } else { y + 1 };
            assert(r[x] == s[x0] && r[y] == s[y0]);
        }
    }
    assert(!has_id(r, id));
    assert(m.tokens.remove(id).remove(id) == m.tokens.remove(id));
    if !has_id(m.accounts, id) && !m.tokens.contains_key(id) {
        assert(m.tokens.remove(id) == m.tokens);
    }
}

} // verus!
