//! What the user-facing commands do to the cache, apart from their I/O.
use vstd::prelude::*;
use crate::account::{public_account, Account, CachedAccount};
use crate::snapshot::{coherent, token_table};
use crate::state::{
    after_remove, has_id, ids_unique, index_of_id, lemma_index_of_id, lookup, opt_view, upsert, without_id,
    AppState, CacheModel,
};

verus! {

/// The public face of each account, in order.
pub open spec fn public_accounts(s: Seq<CachedAccount>) -> Seq<Account> {
    s.map_values(|c: CachedAccount| public_account(c))
}

/// Caches a validated account and its token (the account is inserted, or
/// replaces the one with its id) and returns its public face.
pub fn register_account(state: &mut AppState, account: CachedAccount) -> (r: Account)
    requires
        old(state).wf(),
    ensures
        final(state).wf(),
        final(state)@ == (CacheModel {
            accounts: upsert(old(state)@.accounts, account),
            tokens: old(state)@.tokens.insert(account.id@, account.token@),
            ..old(state)@
        }),
        r == public_account(account),
{
    let id = account.id.clone();
    let token = account.token.clone();
    state.set_account(account.duplicate());
    state.set_token(id.as_str(), token.as_str());
    Account::from(account)
}

/// Every cached account, without tokens.
pub fn list_accounts(state: &AppState) -> (r: Vec<Account>)
    requires
        state.wf(),
    ensures
        r@ == public_accounts(state@.accounts),
{
    let all = state.get_all_accounts();
    let mut r: Vec<Account> = Vec::new();
    let mut i: usize = 0;
    while i < all.len()
        invariant
            i <= all@.len(),
            all@ == state@.accounts,
            r@ == public_accounts(all@.take(i as int)),
        decreases all@.len() - i,
    {
        r.push(Account::from(all[i].duplicate()));
        proof {
            assert(public_accounts(all@.take(i as int + 1)) =~= public_accounts(all@.take(i as int)).push(
                public_account(all@[i as int]),
            ));
        }
        i = i + 1;
    }
    proof {
        assert(all@.take(i as int) == all@);
    }
    r
}

/// The active account, if one is set and still cached.
pub fn current_account(state: &AppState) -> (r: Option<Account>)
    requires
        state.wf(),
    ensures
        r == match state@.active {
            Some(id) => match lookup(state@.accounts, id) {
                Some(c) => Some(public_account(c)),
                None => None,
            },
            None => None,
        },
{
    match state.get_active_account_id() {
        Some(id) => match state.get_account(id.as_str()) {
            Some(c) => Some(Account::from(c)),
            None => None,
        },
        None => None,
    }
}

/// The token of the active account, if one is set and has a token.
pub fn stored_token(state: &AppState) -> (r: Option<String>)
    requires
        state.wf(),
    ensures
        opt_view(r) == match state@.active {
            Some(id) => if state@.tokens.contains_key(id) {
                Some(state@.tokens[id])
            } else {
                None
            },
            None => None,
        },
{
    match state.get_active_account_id() {
        Some(id) => state.get_token(id.as_str()),
        None => None,
    }
}

proof fn lemma_table_update(s: Seq<CachedAccount>, i: int, a: CachedAccount)
    requires
        ids_unique(s),
        0 <= i < s.len(),
        s[i].id@ == a.id@,
    ensures
        token_table(s.update(i, a)) == token_table(s).insert(a.id@, a.token@),
    decreases s.len(),
{
    let p = s.drop_last();
    if i == s.len() - 1 {
        assert(s.update(i, a).drop_last() == p);
    } else {
        assert(ids_unique(p)) by {
            assert forall|x: int, y: int| 0 <= x < p.len() && 0 <= y < p.len() && x != y
                implies #[trigger] p[x].id@ != #[trigger] p[y].id@ by {
                assert(p[x] == s[x] && p[y] == s[y]);
            }
        }
        lemma_table_update(p, i, a);
        assert(s.update(i, a).drop_last() == p.update(i, a));
        assert(s[s.len() - 1].id@ != s[i].id@);
        assert(token_table(s.update(i, a)) =~= token_table(s).insert(a.id@, a.token@));
    }
}

proof fn lemma_table_remove(s: Seq<CachedAccount>, i: int)
    requires
        ids_unique(s),
        0 <= i < s.len(),
    ensures
        token_table(s.remove(i)) == token_table(s).remove(s[i].id@),
    decreases s.len(),
{
    let p = s.drop_last();
    assert(ids_unique(p)) by {
        assert forall|x: int, y: int| 0 <= x < p.len() && 0 <= y < p.len() && x != y
            implies #[trigger] p[x].id@ != #[trigger] p[y].id@ by {
            assert(p[x] == s[x] && p[y] == s[y]);
        }
    }
    if i == s.len() - 1 {
        assert(s.remove(i) == p);
        assert(!token_table(p).contains_key(s[i].id@)) by {
            lemma_table_keys(p);
            if token_table(p).contains_key(s[i].id@) {
                let j = choose|j: int| 0 <= j < p.len() && #[trigger] p[j].id@ == s[i].id@;
                assert(s[j].id@ == s[i].id@);
            }
        }
        assert(token_table(s.remove(i)) =~= token_table(s).remove(s[i].id@));
    } else {
        lemma_table_remove(p, i);
        assert(s.remove(i).drop_last() == p.remove(i));
        assert(s.remove(i).last() == s.last());
        assert(s[s.len() - 1].id@ != s[i].id@);
        assert(token_table(s.remove(i)) =~= token_table(s).remove(s[i].id@));
    }
}

proof fn lemma_table_keys(s: Seq<CachedAccount>)
    ensures
        forall|k: Seq<char>| #[trigger] token_table(s).contains_key(k) ==> exists|j: int|
            0 <= j < s.len() && #[trigger] s[j].id@ == k,
    decreases s.len(),
{
    if s.len() > 0 {
        let p = s.drop_last();
        lemma_table_keys(p);
        assert forall|k: Seq<char>| #[trigger] token_table(s).contains_key(k) implies exists|j: int|
            0 <= j < s.len() && #[trigger] s[j].id@ == k by {
            if k == s.last().id@ {
                assert(s[s.len() - 1].id@ == k);
            } else {
                assert(token_table(s) == token_table(p).insert(s.last().id@, s.last().token@));
                assert(token_table(p).contains_key(k));
                let j = choose|j: int| 0 <= j < p.len() && #[trigger] p[j].id@ == k;
                assert(s[j] == p[j]);
            }
        }
    }
}

/// Registering an account keeps the tokens in step with the accounts.
pub proof fn lemma_register_keeps_coherent(m: CacheModel, a: CachedAccount)
    requires
        m.valid(),
        coherent(m),
    ensures
        coherent(CacheModel { accounts: upsert(m.accounts, a), tokens: m.tokens.insert(a.id@, a.token@), ..m }),
{
    if has_id(m.accounts, a.id@) {
        let i = index_of_id(m.accounts, a.id@);
        lemma_table_update(m.accounts, i, a);
    } else {
        assert(upsert(m.accounts, a).drop_last() == m.accounts);
    }
}

/// Removing an account keeps the tokens in step with the accounts.
pub proof fn lemma_remove_keeps_coherent(m: CacheModel, id: Seq<char>)
    requires
        m.valid(),
        coherent(m),
    ensures
        coherent(after_remove(m, id)),
{
    if has_id(m.accounts, id) {
        let i = index_of_id(m.accounts, id);
        lemma_table_remove(m.accounts, i);
    } else {
        assert(!m.tokens.contains_key(id)) by {
            lemma_table_keys(m.accounts);
        }
        assert(m.tokens.remove(id) =~= m.tokens);
    }
}

} // verus!
