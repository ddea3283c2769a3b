//! The durable snapshot of the cache, and filling the cache from it.
use vstd::prelude::*;
use crate::account::{copy_opt, CachedAccount};
use crate::state::{ids_unique, has_id, lemma_upsert_appends, opt_view, upsert, AppState, CacheModel};

verus! {

/// An account as the snapshot records it.
#[derive(Debug, Clone)]
pub struct StoredAccount {
    pub id: String,
    pub username: String,
    pub email: String,
    pub name: Option<String>,
    pub scope_type: String,
    pub team_name: Option<String>,
    pub team_slug: Option<String>,
    pub token: String,
    pub provider: String,
}

/// Everything that survives a restart: the accounts and the active account.
#[derive(Debug, Clone)]
pub struct KeychainData {
    pub accounts: Vec<StoredAccount>,
    pub active_account_id: Option<String>,
}

impl KeychainData {
    /// The snapshot of an empty cache.
    pub fn empty() -> (r: KeychainData)
        ensures
            r.accounts@.len() == 0,
            r.active_account_id is None,
    {
        KeychainData { accounts: Vec::new(), active_account_id: None }
    }
}

/// What one read of the secure store gave.
#[derive(Debug, Clone)]
pub enum KeychainRead {
    /// A snapshot was present and parsed.
    Found(KeychainData),
    /// The store holds no snapshot yet.
    Missing,
    /// A snapshot was present but could not be parsed.
    Corrupt(String),
    /// The store could not be reached.
    Unavailable(String),
}

/// Why the secure store could not be read or written.
#[derive(Debug, Clone, PartialEq, Eq)]
pub enum StoreError {
    Unavailable(String),
    Corrupt(String),
}

/// The snapshot record of a cached account: the same fields.
pub open spec fn stored_of(c: CachedAccount) -> StoredAccount {
    StoredAccount {
        id: c.id,
        username: c.username,
        email: c.email,
        name: c.name,
        scope_type: c.scope_type,
        team_name: c.team_name,
        team_slug: c.team_slug,
        token: c.token,
        provider: c.provider,
    }
}

/// The cached account of a snapshot record: the same fields.
pub open spec fn cached_of(s: StoredAccount) -> CachedAccount {
    CachedAccount {
        id: s.id,
        username: s.username,
        email: s.email,
        name: s.name,
        scope_type: s.scope_type,
        team_name: s.team_name,
        team_slug: s.team_slug,
        token: s.token,
        provider: s.provider,
    }
}

/// The snapshot records of a sequence of cached accounts, in order.
pub open spec fn stored_seq(s: Seq<CachedAccount>) -> Seq<StoredAccount> {
    s.map_values(|c: CachedAccount| stored_of(c))
}

/// The cache after loading the stored accounts one by one: each token is
/// cached and each account is inserted or replaced by id.
pub open spec fn load_accounts(m: CacheModel, stored: Seq<StoredAccount>) -> CacheModel
    decreases stored.len(),
{
    if stored.len() == 0 {
        m
    } else {
        let m1 = load_accounts(m, stored.drop_last());
        let c = cached_of(stored.last());
        CacheModel {
            tokens: m1.tokens.insert(c.id@, c.token@),
            accounts: upsert(m1.accounts, c),
            ..m1
        }
    }
}

/// The cache after it is filled from a snapshot with these accounts and
/// this active account.
pub open spec fn hydrated(m: CacheModel, stored: Seq<StoredAccount>, active: Option<Seq<char>>) -> CacheModel {
    CacheModel { initialized: true, ..load_accounts(CacheModel { active, ..m }, stored) }
}

/// The cache after one initialization whose store read, if one is made, gives `read`.
pub open spec fn after_initialize(m: CacheModel, read: KeychainRead) -> CacheModel {
    if m.initialized {
        m
    } else {
        match read {
            KeychainRead::Found(d) => hydrated(m, d.accounts@, opt_view(d.active_account_id)),
            KeychainRead::Missing => hydrated(m, Seq::empty(), None),
            _ => m,
        }
    }
}

/// An initialization reads the store exactly when the cache is not yet filled.
pub open spec fn reads_store(m: CacheModel) -> bool {
    !m.initialized
}

fn stored_from(c: &CachedAccount) -> (r: StoredAccount)
    ensures
        r == stored_of(*c),
{
    StoredAccount {
        id: c.id.clone(),
        username: c.username.clone(),
        email: c.email.clone(),
        name: copy_opt(&c.name),
        scope_type: c.scope_type.clone(),
        team_name: copy_opt(&c.team_name),
        team_slug: copy_opt(&c.team_slug),
        token: c.token.clone(),
        provider: c.provider.clone(),
    }
}

fn cached_from(s: &StoredAccount) -> (r: CachedAccount)
    ensures
        r == cached_of(*s),
{
    CachedAccount {
        id: s.id.clone(),
        username: s.username.clone(),
        email: s.email.clone(),
        name: copy_opt(&s.name),
        scope_type: s.scope_type.clone(),
        team_name: copy_opt(&s.team_name),
        team_slug: copy_opt(&s.team_slug),
        token: s.token.clone(),
        provider: s.provider.clone(),
    }
}

/// The full snapshot of the cache: every account with its token, in cache
/// order, and the active account.
pub fn keychain_snapshot(state: &AppState) -> (r: KeychainData)
    requires
        state.wf(),
    ensures
        r.accounts@ == stored_seq(state@.accounts),
        opt_view(r.active_account_id) == state@.active,
{
    let accounts = state.get_all_accounts();
    let mut stored: Vec<StoredAccount> = Vec::new();
    let mut i: usize = 0;
    while i < accounts.len()
        invariant
            i <= accounts@.len(),
            accounts@ == state@.accounts,
            stored@ == stored_seq(accounts@.take(i as int)),
        decreases accounts@.len() - i,
    {
        stored.push(stored_from(&accounts[i]));
        proof {
            assert(stored_seq(accounts@.take(i as int + 1)) == stored_seq(accounts@.take(i as int)).push(
                stored_of(accounts@[i as int]),
            ));
        }
        i = i + 1;
    }
    proof {
        assert(accounts@.take(i as int) == accounts@);
    }
    KeychainData { accounts: stored, active_account_id: state.get_active_account_id() }
}

fn load_into(state: &mut AppState, stored: &Vec<StoredAccount>)
    requires
        old(state).wf(),
    ensures
        final(state).wf(),
        final(state)@ == load_accounts(old(state)@, stored@),
{
    let mut i: usize = 0;
    while i < stored.len()
        invariant
            state.wf(),
            i <= stored@.len(),
            state@ == load_accounts(old(state)@, stored@.take(i as int)),
        decreases stored@.len() - i,
    {
        let c = cached_from(&stored[i]);
        proof {
            assert(stored@.take(i as int + 1).drop_last() == stored@.take(i as int));
        }
        state.set_token(c.id.as_str(), c.token.as_str());
        state.set_account(c);
        i = i + 1;
    }
    proof {
        assert(stored@.take(i as int) == stored@);
    }
}

/// Fills the cache from what a read of the secure store gave, unless it is
/// already filled. A missing snapshot fills it with nothing; a corrupt or
/// unreachable store is reported and leaves the cache untouched.
pub fn initialize_state(state: &mut AppState, read: KeychainRead) -> (r: Result<(), StoreError>)
    requires
        old(state).wf(),
    ensures
        final(state).wf(),
        final(state)@ == after_initialize(old(state)@, read),
        r is Err <==> (!old(state)@.initialized && (read is Corrupt || read is Unavailable)),
        !old(state)@.initialized ==> match read {
            KeychainRead::Corrupt(m) => r == Err::<(), StoreError>(StoreError::Corrupt(m)),
            KeychainRead::Unavailable(m) => r == Err::<(), StoreError>(StoreError::Unavailable(m)),
            _ => true,
        },
{
    if state.is_initialized() {
        return Ok(());
    }
    match read {
        KeychainRead::Found(data) => {
            state.set_active_account_id(data.active_account_id);
            load_into(state, &data.accounts);
            state.set_initialized(true);
            Ok(())
        },
        KeychainRead::Missing => {
            state.set_active_account_id(None);
            state.set_initialized(true);
            proof {
                assert(load_accounts(CacheModel { active: None, ..old(state)@ }, Seq::empty())
                    == CacheModel { active: None, ..old(state)@ });
            }
            Ok(())
        },
        KeychainRead::Corrupt(m) => Err(StoreError::Corrupt(m)),
        KeychainRead::Unavailable(m) => Err(StoreError::Unavailable(m)),
    }
}

/// The token of each account of `s`, by id.
pub open spec fn token_table(s: Seq<CachedAccount>) -> Map<Seq<char>, Seq<char>>
    decreases s.len(),
{
    if s.len() == 0 {
        Map::empty()
    } else {
        token_table(s.drop_last()).insert(s.last().id@, s.last().token@)
    }
}

/// The token map holds exactly the tokens of the cached accounts.
pub open spec fn coherent(m: CacheModel) -> bool {
    m.tokens == token_table(m.accounts)
}

/// The cache after `n` initializations in a row, each of which gets `read`
/// if it reads the store, and how many of them read it.
pub open spec fn initialize_times(m: CacheModel, read: KeychainRead, n: nat) -> (CacheModel, nat)
    decreases n,
{
    if n == 0 {
        (m, 0)
    } else {
        let (m1, k) = initialize_times(m, read, (n - 1) as nat);
        (after_initialize(m1, read), if reads_store(m1) { k + 1 } else { k })
    }
}

/// Initializing an unfilled cache any number n >= 1 of times, against a
/// store that answers, reads the store exactly once and leaves the cache as
/// a single initialization does.
pub proof fn lemma_initialize_single_flight(m: CacheModel, read: KeychainRead, n: nat)
    requires
        n >= 1,
        !m.initialized,
        read is Found || read is Missing,
    ensures
        initialize_times(m, read, n) == (after_initialize(m, read), 1nat),
    decreases n,
{
    let once = after_initialize(m, read);
    assert(once.initialized);
    if n > 1 {
        lemma_initialize_single_flight(m, read, (n - 1) as nat);
        assert(after_initialize(once, read) == once);
    } else {
        assert(initialize_times(m, read, 0) == (m, 0nat));
    }
}

proof fn lemma_load_fresh(fresh: CacheModel, s: Seq<CachedAccount>)
    requires
        ids_unique(s),
        fresh.accounts.len() == 0,
        fresh.tokens.is_empty(),
    ensures
        load_accounts(fresh, stored_seq(s)) == (CacheModel { accounts: s, tokens: token_table(s), ..fresh }),
    decreases s.len(),
{
    if s.len() == 0 {
        assert(fresh.accounts == s);
        assert(fresh.tokens == Map::<Seq<char>, Seq<char>>::empty());
    } else {
        let p = s.drop_last();
        assert(stored_seq(s).drop_last() == stored_seq(p));
        assert(ids_unique(p)) by {
            assert forall|x: int, y: int| 0 <= x < p.len() && 0 <= y < p.len() && x != y
                implies #[trigger] p[x].id@ != #[trigger] p[y].id@ by {
                assert(p[x] == s[x] && p[y] == s[y]);
            }
        }
        lemma_load_fresh(fresh, p);
        assert(cached_of(stored_seq(s).last()) == s.last());
        assert(!has_id(p, s.last().id@)) by {
            if has_id(p, s.last().id@) {
                let j = choose|j: int| 0 <= j < p.len() && #[trigger] p[j].id@ == s.last().id@;
                assert(s[j].id@ == s[s.len() - 1].id@);
            }
        }
        lemma_upsert_appends(p, s.last());
        assert(p.push(s.last()) == s);
    }
}

/// Writing the snapshot of a coherent cache and filling a fresh cache from
/// it (a restart) gives back the same accounts, tokens and active account.
pub proof fn lemma_snapshot_round_trip(m: CacheModel, data: KeychainData, fresh: CacheModel)
    requires
        m.valid(),
        coherent(m),
        data.accounts@ == stored_seq(m.accounts),
        opt_view(data.active_account_id) == m.active,
        fresh.accounts.len() == 0,
        fresh.tokens.is_empty(),
        !fresh.initialized,
    ensures
        after_initialize(fresh, KeychainRead::Found(data)) == (CacheModel { initialized: true, ..m }),
{
    lemma_load_fresh(CacheModel { active: m.active, ..fresh }, m.accounts);
}

} // verus!
