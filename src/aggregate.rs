//! Deployments of every cached account, merged into one newest-first list.
use vstd::prelude::*;
use vstd::seq_lib::{to_multiset_build, to_multiset_insert};
use crate::account::CachedAccount;
use crate::normalize::{normalize_railway, normalize_vercel, railway_created_millis, railway_view, vercel_view};
use crate::railway::RailwayDeployment;
use crate::unified::{DeploymentView, UnifiedDeployment};
use crate::vercel::Deployment;

verus! {

/// How many deployments a listing of all accounts returns when the caller
/// names no limit.
pub const DEFAULT_LIST_LIMIT: u32 = 8;

/// How many recent deployments are fetched per account for a listing of
/// all accounts, whatever the listing's own limit, so that every account
/// is fairly represented before the merge.
pub const PER_ACCOUNT_FETCH_LIMIT: u32 = 20;

/// The two supported providers.
#[derive(Debug, Clone, Copy, PartialEq, Eq, Structural)]
pub enum Provider {
    Vercel,
    Railway,
}

/// The provider an account's provider name stands for; other names stand for none.
pub open spec fn provider_of(name: Seq<char>) -> Option<Provider> {
    if name == "vercel"@ {
        Some(Provider::Vercel)
    } else if name == "railway"@ {
        Some(Provider::Railway)
    } else {
        None
    }
}

/// Which provider the name `name` stands for.
pub fn provider_kind(name: &String) -> (r: Option<Provider>)
    ensures
        r == provider_of(name@),
{
    if *name == String::from_str("vercel") {
        Some(Provider::Vercel)
    } else if *name == String::from_str("railway") {
        Some(Provider::Railway)
    } else {
        None
    }
}

/// One account's request for recent deployments.
#[derive(Debug, Clone)]
pub struct FetchTarget {
    pub account_id: String,
    pub provider: Provider,
    pub token: String,
    /// For the second provider: the token is scoped to one project.
    pub project_token: bool,
    /// For the first provider: the team slug, else the user name, used in dashboard links.
    pub team_slug: Option<String>,
}

/// The request made for an account, if its provider is known.
pub open spec fn target_of(a: CachedAccount) -> Option<FetchTarget> {
    match provider_of(a.provider@) {
        Some(Provider::Vercel) => Some(FetchTarget {
            account_id: a.id,
            provider: Provider::Vercel,
            token: a.token,
            project_token: false,
            team_slug: Some(
                match a.team_slug {
                    Some(s) => s,
                    None => a.username,
                },
            ),
        }),
        Some(Provider::Railway) => Some(FetchTarget {
            account_id: a.id,
            provider: Provider::Railway,
            token: a.token,
            project_token: a.scope_type@ == "project"@,
            team_slug: None,
        }),
        None => None,
    }
}

/// The requests for a sequence of accounts, in order, skipping unknown providers.
pub open spec fn targets_of(s: Seq<CachedAccount>) -> Seq<FetchTarget>
    decreases s.len(),
{
    if s.len() == 0 {
        Seq::empty()
    } else {
        let rest = targets_of(s.drop_last());
        match target_of(s.last()) {
            Some(t) => rest.push(t),
            None => rest,
        }
    }
}

/// The request for one account, if its provider is known.
pub fn fetch_target(a: &CachedAccount) -> (r: Option<FetchTarget>)
    ensures
        r == target_of(*a),
{
    match provider_kind(&a.provider) {
        Some(Provider::Vercel) => {
            let slug = match &a.team_slug {
                Some(s) => s.clone(),
                None => a.username.clone(),
            };
            Some(FetchTarget {
                account_id: a.id.clone(),
                provider: Provider::Vercel,
                token: a.token.clone(),
                project_token: false,
                team_slug: Some(slug),
            })
        },
        Some(Provider::Railway) => Some(FetchTarget {
            account_id: a.id.clone(),
            provider: Provider::Railway,
            token: a.token.clone(),
            project_token: a.scope_type == String::from_str("project"),
            team_slug: None,
        }),
        None => None,
    }
}

/// The requests to make for every account, in account order.
pub fn fetch_targets(accounts: &Vec<CachedAccount>) -> (r: Vec<FetchTarget>)
    ensures
        r@ == targets_of(accounts@),
{
    let mut r: Vec<FetchTarget> = Vec::new();
    let mut i: usize = 0;
    while i < accounts.len()
        invariant
            i <= accounts@.len(),
            r@ == targets_of(accounts@.take(i as int)),
        decreases accounts@.len() - i,
    {
        proof {
            assert(accounts@.take(i as int + 1).drop_last() == accounts@.take(i as int));
        }
        match fetch_target(&accounts[i]) {
            Some(t) => r.push(t),
            None => {},
        }
        i = i + 1;
    }
    proof {
        assert(accounts@.take(i as int) == accounts@);
    }
    r
}

/// Deployments returned for one account, in the provider's own shape.
#[derive(Debug, Clone)]
pub enum DeploymentBatch {
    Vercel(Vec<Deployment>),
    Railway(Vec<RailwayDeployment>),
}

/// What fetching one account's deployments gave.
#[derive(Debug)]
pub struct AccountFetch {
    pub target: FetchTarget,
    pub result: Result<DeploymentBatch, String>,
}

/// The views of a sequence of unified deployments.
pub open spec fn views(s: Seq<UnifiedDeployment>) -> Seq<DeploymentView> {
    s.map_values(|u: UnifiedDeployment| u@)
}

/// The unified views of deployments of the first provider, listed under `slug`.
pub open spec fn vercel_views(ds: Seq<Deployment>, slug: Seq<char>) -> Seq<DeploymentView> {
    ds.map_values(|d: Deployment| vercel_view(d, slug))
}

/// The unified views of deployments of the second provider.
pub open spec fn railway_views(ds: Seq<RailwayDeployment>) -> Seq<DeploymentView> {
    ds.map_values(|d: RailwayDeployment| railway_view(d, railway_created_millis(d)))
}

/// The slug a target lists its deployments under.
pub open spec fn slug_of(t: FetchTarget) -> Seq<char> {
    match t.team_slug {
        Some(s) => s@,
        None => Seq::empty(),
    }
}

/// The unified deployments one fetch contributes: none where it failed.
pub open spec fn fetch_views(f: AccountFetch) -> Seq<DeploymentView> {
    match f.result {
        Ok(DeploymentBatch::Vercel(ds)) => vercel_views(ds@, slug_of(f.target)),
        Ok(DeploymentBatch::Railway(ds)) => railway_views(ds@),
        Err(_) => Seq::empty(),
    }
}

/// The unified deployments of all fetches, account after account.
pub open spec fn all_views(fs: Seq<AccountFetch>) -> Seq<DeploymentView>
    decreases fs.len(),
{
    if fs.len() == 0 {
        Seq::empty()
    } else {
        all_views(fs.drop_last()) + fetch_views(fs.last())
    }
}

/// The creation time used for ordering: an absent time counts as 0.
pub open spec fn time_key(v: DeploymentView) -> int {
    match v.created_at {
        Some(t) => t as int,
        None => 0,
    }
}

/// The first position at or after `j` whose time is older than `k`.
pub open spec fn insert_pos_from(s: Seq<DeploymentView>, k: int, j: int) -> int
    decreases s.len() - j,
{
    if j < 0 || j >= s.len() {
        s.len() as int
    } else if time_key(s[j]) >= k {
        insert_pos_from(s, k, j + 1)
    } else {
        j
    }
}

/// Inserts `v` after every entry at least as recent, so that entries of
/// equal time keep their order of arrival.
pub open spec fn insert_by_time(s: Seq<DeploymentView>, v: DeploymentView) -> Seq<DeploymentView> {
    s.insert(insert_pos_from(s, time_key(v), 0), v)
}

/// A stable sort, most recent first.
pub open spec fn sort_by_time(s: Seq<DeploymentView>) -> Seq<DeploymentView>
    decreases s.len(),
{
    if s.len() == 0 {
        s
    } else {
        insert_by_time(sort_by_time(s.drop_last()), s.last())
    }
}

/// The `limit` most recent entries of `s`, most recent first.
pub open spec fn newest_first(s: Seq<DeploymentView>, limit: nat) -> Seq<DeploymentView> {
    let t = sort_by_time(s);
    if limit < t.len() {
        t.take(limit as int)
    } else {
        t
    }
}

/// Entries are ordered from most to least recent.
pub open spec fn sorted_newest_first(s: Seq<DeploymentView>) -> bool {
    forall|i: int, j: int| 0 <= i < j < s.len() ==> time_key(#[trigger] s[i]) >= time_key(#[trigger] s[j])
}

fn time_of(d: &UnifiedDeployment) -> (r: i64)
    ensures
        r as int == time_key(d@),
{
    match d.created_at {
        Some(t) => t,
        None => 0,
    }
}

/// The unified records of every fetch, account after account; a failed
/// fetch contributes nothing.
pub fn collect_deployments(fetches: &Vec<AccountFetch>) -> (r: Vec<UnifiedDeployment>)
    ensures
        views(r@) == all_views(fetches@),
{
    let mut r: Vec<UnifiedDeployment> = Vec::new();
    let mut i: usize = 0;
    while i < fetches.len()
        invariant
            i <= fetches@.len(),
            views(r@) == all_views(fetches@.take(i as int)),
        decreases fetches@.len() - i,
    {
        proof {
            assert(fetches@.take(i as int + 1).drop_last() == fetches@.take(i as int));
        }
        let f = &fetches[i];
        let ghost base = views(r@);
        match &f.result {
            Ok(DeploymentBatch::Vercel(ds)) => {
                let slug = match &f.target.team_slug {
                    Some(s) => s.clone(),
                    None => String::new(),
                };
                let mut j: usize = 0;
                while j < ds.len()
                    invariant
                        j <= ds@.len(),
                        slug@ == slug_of(f.target),
                        views(r@) == base + vercel_views(ds@.take(j as int), slug@),
                    decreases ds@.len() - j,
                {
                    let ghost before = r@;
                    r.push(normalize_vercel(&ds[j], &slug));
                    proof {
                        assert(views(r@) =~= views(before).push(r@.last()@));
                        assert(vercel_views(ds@.take(j as int + 1), slug@) =~= vercel_views(ds@.take(j as int), slug@).push(
                            vercel_view(ds@[j as int], slug@),
                        ));
                    }
                    j = j + 1;
                }
                proof {
                    assert(ds@.take(j as int) == ds@);
                }
            },
            Ok(DeploymentBatch::Railway(ds)) => {
                let mut j: usize = 0;
                while j < ds.len()
                    invariant
                        j <= ds@.len(),
                        views(r@) == base + railway_views(ds@.take(j as int)),
                    decreases ds@.len() - j,
                {
                    let ghost before = r@;
                    r.push(normalize_railway(&ds[j]));
                    proof {
                        assert(views(r@) =~= views(before).push(r@.last()@));
                        assert(railway_views(ds@.take(j as int + 1)) =~= railway_views(ds@.take(j as int)).push(
                            railway_view(ds@[j as int], railway_created_millis(ds@[j as int])),
                        ));
                    }
                    j = j + 1;
                }
                proof {
                    assert(ds@.take(j as int) == ds@);
                }
            },
            Err(_) => {
                proof {
                    assert(base + Seq::<DeploymentView>::empty() == base);
                }
            },
        }
        i = i + 1;
    }
    proof {
        assert(fetches@.take(i as int) == fetches@);
    }
    r
}

/// Sorts deployments most recent first (an absent time counts as 0);
/// entries of equal time keep their order.
pub fn sort_newest_first(items: &Vec<UnifiedDeployment>) -> (r: Vec<UnifiedDeployment>)
    ensures
        views(r@) == sort_by_time(views(items@)),
{
    let mut out: Vec<UnifiedDeployment> = Vec::new();
    let mut i: usize = 0;
    while i < items.len()
        invariant
            i <= items@.len(),
            views(out@) == sort_by_time(views(items@).take(i as int)),
        decreases items@.len() - i,
    {
        let d = items[i].duplicate();
        let k = time_of(&d);
        let mut j: usize = 0;
        while j < out.len() && time_of(&out[j]) >= k
            invariant
                j <= out@.len(),
                insert_pos_from(views(out@), k as int, j as int) == insert_pos_from(views(out@), k as int, 0),
            decreases out@.len() - j,
        {
            j = j + 1;
        }
        let ghost before = out@;
        out.insert(j, d);
        proof {
            let vs = views(items@);
            assert(vs.take(i as int + 1).drop_last() == vs.take(i as int));
            assert(vs.take(i as int + 1).last() == d@);
            assert(views(out@) =~= views(before).insert(j as int, d@));
        }
        i = i + 1;
    }
    proof {
        assert(views(items@).take(i as int) == views(items@));
    }
    out
}

/// The `limit` most recent deployments of `all`, most recent first.
pub fn newest_deployments(all: &Vec<UnifiedDeployment>, limit: u32) -> (r: Vec<UnifiedDeployment>)
    ensures
        views(r@) == newest_first(views(all@), limit as nat),
{
    let mut sorted = sort_newest_first(all);
    let ghost full = sorted@;
    sorted.truncate(limit as usize);
    proof {
        if (limit as nat) < full.len() {
            assert(views(sorted@) =~= views(full).take(limit as int));
        }
    }
    sorted
}

/// Every account's fetched deployments, unified, merged and cut to the
/// `limit` most recent; accounts whose fetch failed contribute nothing.
pub fn list_all_deployments(fetches: &Vec<AccountFetch>, limit: u32) -> (r: Vec<UnifiedDeployment>)
    ensures
        views(r@) == newest_first(all_views(fetches@), limit as nat),
{
    let all = collect_deployments(fetches);
    newest_deployments(&all, limit)
}

proof fn lemma_insert_pos(s: Seq<DeploymentView>, k: int, j: int)
    requires
        0 <= j <= s.len(),
        forall|m: int| 0 <= m < j ==> time_key(#[trigger] s[m]) >= k,
    ensures
        j <= insert_pos_from(s, k, j) <= s.len(),
        forall|m: int| 0 <= m < insert_pos_from(s, k, j) ==> time_key(#[trigger] s[m]) >= k,
        insert_pos_from(s, k, j) < s.len() ==> time_key(s[insert_pos_from(s, k, j)]) < k,
    decreases s.len() - j,
{
    if j < s.len() && time_key(s[j]) >= k {
        lemma_insert_pos(s, k, j + 1);
    }
}

/// Sorting keeps exactly the same entries and puts them most recent first.
pub proof fn lemma_sort_by_time(s: Seq<DeploymentView>)
    ensures
        sorted_newest_first(sort_by_time(s)),
        sort_by_time(s).to_multiset() == s.to_multiset(),
        sort_by_time(s).len() == s.len(),
    decreases s.len(),
{
    if s.len() > 0 {
        let t = sort_by_time(s.drop_last());
        let v = s.last();
        let k = time_key(v);
        lemma_sort_by_time(s.drop_last());
        lemma_insert_pos(t, k, 0);
        let p = insert_pos_from(t, k, 0);
        let u = t.insert(p, v);
        assert(u == sort_by_time(s));
        assert forall|x: int, y: int| 0 <= x < y < u.len() implies time_key(#[trigger] u[x]) >= time_key(#[trigger] u[y]) by {
            if y < p {
                assert(u[x] == t[x] && u[y] == t[y]);
            } else if y == p {
                assert(u[x] == t[x]);
            } else if x < p {
                assert(u[x] == t[x] && u[y] == t[y - 1]);
            } else if x == p {
                assert(u[y] == t[y - 1]);
                assert(time_key(t[p]) >= time_key(t[y - 1]));
            } else {
                assert(u[x] == t[x - 1] && u[y] == t[y - 1]);
            }
        }
        to_multiset_insert(t, p, v);
        to_multiset_build(s.drop_last(), v);
        assert(s.drop_last().push(v) == s);
    }
}

/// The aggregate holds min(limit, n) entries, most recent first, drawn from
/// a reordering of the input in which every entry left out is no more
/// recent than any entry kept.
pub proof fn lemma_newest_first(s: Seq<DeploymentView>, limit: nat)
    ensures
        newest_first(s, limit).len() == if limit < s.len() { limit as int } else { s.len() as int },
        sorted_newest_first(newest_first(s, limit)),
        sort_by_time(s).to_multiset() == s.to_multiset(),
        newest_first(s, limit) == sort_by_time(s).take(newest_first(s, limit).len() as int),
        forall|i: int, j: int|
            0 <= i < newest_first(s, limit).len() <= j < s.len()
                ==> time_key(#[trigger] newest_first(s, limit)[i]) >= time_key(#[trigger] sort_by_time(s)[j]),
{
    lemma_sort_by_time(s);
    let t = sort_by_time(s);
    let r = newest_first(s, limit);
    assert(r == t.take(r.len() as int));
    assert forall|i: int, j: int| 0 <= i < r.len() <= j < s.len() implies time_key(#[trigger] r[i]) >= time_key(
        #[trigger] t[j],
    ) by {
        assert(r[i] == t[i]);
    }
}

/// A fetch that failed changes nothing: the merged deployments are those
/// of the other accounts, as if the failed account were not there.
pub proof fn lemma_failed_fetch_ignored(fs: Seq<AccountFetch>, i: int)
    requires
        0 <= i < fs.len(),
        fs[i].result is Err,
    ensures
        all_views(fs) == all_views(fs.remove(i)),
    decreases fs.len(),
{
    if i == fs.len() - 1 {
        assert(fs.remove(i) == fs.drop_last());
        assert(all_views(fs) == all_views(fs.drop_last()) + Seq::<DeploymentView>::empty());
        assert(all_views(fs.drop_last()) + Seq::<DeploymentView>::empty() == all_views(fs.drop_last()));
    } else {
        lemma_failed_fetch_ignored(fs.drop_last(), i);
        assert(fs.remove(i).drop_last() == fs.drop_last().remove(i));
        assert(fs.remove(i).last() == fs.last());
    }
}

} // verus!
