//! The second provider's deployment listing: which queries to run across
//! projects, environments and services, and how their answers are merged.
use vstd::prelude::*;
use crate::account::copy_opt;
use crate::railway::{EnvironmentEdge, RailwayDeployment, RailwayEnvironment, RailwayProject, RailwayService, ServiceEdge};

verus! {

/// How many projects a listing across all projects looks at.
pub const PROJECT_SCAN_LIMIT: u32 = 20;

/// How many deployments are asked for per service and environment when
/// listing across all projects.
pub const PER_SERVICE_LIMIT: u32 = 5;

/// `a` sorts strictly before `b`, character by character (by code point),
/// a proper prefix first.
pub open spec fn text_less(a: Seq<char>, b: Seq<char>) -> bool
    decreases a.len(),
{
    if a.len() == 0 {
        b.len() > 0
    } else if b.len() == 0 {
        false
    } else if a[0] != b[0] {
        (a[0] as u32) < (b[0] as u32)
    } else {
        text_less(a.drop_first(), b.drop_first())
    }
}

/// Whether `a` sorts strictly before `b`.
pub fn text_is_less(a: &str, b: &str) -> (r: bool)
    ensures
        r == text_less(a@, b@),
{
    let n = a.unicode_len();
    let m = b.unicode_len();
    let mut i: usize = 0;
    proof {
        assert(a@.skip(0) == a@);
        assert(b@.skip(0) == b@);
    }
    while i < n && i < m
        invariant
            n == a@.len(),
            m == b@.len(),
            i <= n,
            i <= m,
            text_less(a@, b@) == text_less(a@.skip(i as int), b@.skip(i as int)),
        decreases n - i,
    {
        let x = a.get_char(i);
        let y = b.get_char(i);
        proof {
            assert(a@.skip(i as int)[0] == x);
            assert(b@.skip(i as int)[0] == y);
            assert(a@.skip(i as int).drop_first() == a@.skip(i as int + 1));
            assert(b@.skip(i as int).drop_first() == b@.skip(i as int + 1));
        }
        if x != y {
            return (x as u32) < (y as u32);
        }
        i = i + 1;
    }
    proof {
        assert(a@.skip(i as int).len() == n - i);
        assert(b@.skip(i as int).len() == m - i);
    }
    i < m
}

/// The creation text used for ordering: absent counts as empty.
pub open spec fn created_text(d: RailwayDeployment) -> Seq<char> {
    match d.created_at {
        Some(s) => s@,
        None => Seq::empty(),
    }
}

/// The first position at or after `j` whose creation text sorts before `k`.
pub open spec fn text_pos_from(s: Seq<RailwayDeployment>, k: Seq<char>, j: int) -> int
    decreases s.len() - j,
{
    if j < 0 || j >= s.len() {
        s.len() as int
    } else if !text_less(created_text(s[j]), k) {
        text_pos_from(s, k, j + 1)
    } else {
        j
    }
}

/// A stable sort on creation text, latest first.
pub open spec fn sort_by_created(s: Seq<RailwayDeployment>) -> Seq<RailwayDeployment>
    decreases s.len(),
{
    if s.len() == 0 {
        s
    } else {
        let t = sort_by_created(s.drop_last());
        t.insert(text_pos_from(t, created_text(s.last()), 0), s.last())
    }
}

fn created_of(d: &RailwayDeployment) -> (r: &str)
    ensures
        r@ == created_text(*d),
{
    match &d.created_at {
        Some(s) => s.as_str(),
        None => {
            proof {
                reveal_strlit("");
            }
            ""
        },
    }
}

/// Sorts deployments latest first by their creation text (absent counts as
/// empty); entries with equal text keep their order.
pub fn sort_by_created_desc(items: &Vec<RailwayDeployment>) -> (r: Vec<RailwayDeployment>)
    ensures
        r@ == sort_by_created(items@),
{
    let mut out: Vec<RailwayDeployment> = Vec::new();
    let mut i: usize = 0;
    while i < items.len()
        invariant
            i <= items@.len(),
            out@ == sort_by_created(items@.take(i as int)),
        decreases items@.len() - i,
    {
        let d = items[i].duplicate();
        let mut j: usize = 0;
        while j < out.len() && !text_is_less(created_of(&out[j]), created_of(&items[i]))
            invariant
                i < items@.len(),
                j <= out@.len(),
                text_pos_from(out@, created_text(items@[i as int]), j as int)
                    == text_pos_from(out@, created_text(items@[i as int]), 0),
            decreases out@.len() - j,
        {
            j = j + 1;
        }
        out.insert(j, d);
        proof {
            assert(items@.take(i as int + 1).drop_last() == items@.take(i as int));
        }
        i = i + 1;
    }
    proof {
        assert(items@.take(i as int) == items@);
    }
    out
}

/// The `limit` latest entries of `s`, latest first.
pub open spec fn latest(s: Seq<RailwayDeployment>, limit: nat) -> Seq<RailwayDeployment> {
    let t = sort_by_created(s);
    if limit < t.len() {
        t.take(limit as int)
    } else {
        t
    }
}

/// Filters of a deployment listing; each one given narrows the listing.
#[derive(Debug, Clone)]
pub struct DeploymentFilter {
    pub project_id: Option<String>,
    pub service_id: Option<String>,
    pub environment_id: Option<String>,
}

impl DeploymentFilter {
    /// No filter is given: the listing spans every project.
    pub fn is_unfiltered(&self) -> (r: bool)
        ensures
            r == (self.project_id is None && self.service_id is None && self.environment_id is None),
    {
        self.project_id.is_none() && self.service_id.is_none() && self.environment_id.is_none()
    }
}

/// A deployment listed under `f`, marked with the filter's ids.
pub open spec fn filter_tagged(d: RailwayDeployment, f: DeploymentFilter) -> RailwayDeployment {
    RailwayDeployment { project_id: f.project_id, service_id: f.service_id, environment_id: f.environment_id, ..d }
}

/// Each deployment of `ds` marked with the ids of `f`.
pub open spec fn filter_tagged_all(ds: Seq<RailwayDeployment>, f: DeploymentFilter) -> Seq<RailwayDeployment> {
    ds.map_values(|d: RailwayDeployment| filter_tagged(d, f))
}

/// A filtered listing as returned: each deployment marked with the filter's
/// ids, latest first.
pub fn tag_filtered(ds: &Vec<RailwayDeployment>, f: &DeploymentFilter) -> (r: Vec<RailwayDeployment>)
    ensures
        r@ == sort_by_created(filter_tagged_all(ds@, *f)),
{
    let mut tagged: Vec<RailwayDeployment> = Vec::new();
    let mut i: usize = 0;
    while i < ds.len()
        invariant
            i <= ds@.len(),
            tagged@ == filter_tagged_all(ds@.take(i as int), *f),
        decreases ds@.len() - i,
    {
        let mut d = ds[i].duplicate();
        d.project_id = copy_opt(&f.project_id);
        d.service_id = copy_opt(&f.service_id);
        d.environment_id = copy_opt(&f.environment_id);
        tagged.push(d);
        proof {
            assert(filter_tagged_all(ds@.take(i as int + 1), *f) =~= filter_tagged_all(ds@.take(i as int), *f).push(
                filter_tagged(ds@[i as int], *f),
            ));
        }
        i = i + 1;
    }
    proof {
        assert(ds@.take(i as int) == ds@);
    }
    sort_by_created_desc(&tagged)
}

/// One listing to run: the deployments of one service in one environment.
#[derive(Debug, Clone)]
pub struct DeploymentQuery {
    pub project_id: String,
    pub service_id: String,
    pub environment_id: String,
    /// "project / service", the name shown for its deployments.
    pub service_label: String,
}

pub struct QueryView {
    pub project_id: Seq<char>,
    pub service_id: Seq<char>,
    pub environment_id: Seq<char>,
    pub service_label: Seq<char>,
}

impl View for DeploymentQuery {
    type V = QueryView;

    open spec fn view(&self) -> QueryView {
        QueryView {
            project_id: self.project_id@,
            service_id: self.service_id@,
            environment_id: self.environment_id@,
            service_label: self.service_label@,
        }
    }
}

/// The views of a sequence of queries.
pub open spec fn query_views(s: Seq<DeploymentQuery>) -> Seq<QueryView> {
    s.map_values(|q: DeploymentQuery| q@)
}

/// The query for one service of a project in one environment.
pub open spec fn query_of(p: RailwayProject, e: RailwayEnvironment, s: RailwayService) -> QueryView {
    QueryView { project_id: p.id@, service_id: s.id@, environment_id: e.id@, service_label: p.name@ + " / "@ + s.name@ }
}

/// The queries for every service of a project, in one environment.
pub open spec fn env_queries(p: RailwayProject, e: RailwayEnvironment, services: Seq<ServiceEdge>) -> Seq<QueryView>
    decreases services.len(),
{
    if services.len() == 0 {
        Seq::empty()
    } else {
        env_queries(p, e, services.drop_last()).push(query_of(p, e, services.last().node))
    }
}

/// The queries of a project: environment by environment, every service.
pub open spec fn project_queries(p: RailwayProject, envs: Seq<EnvironmentEdge>) -> Seq<QueryView>
    decreases envs.len(),
{
    if envs.len() == 0 {
        Seq::empty()
    } else {
        project_queries(p, envs.drop_last()) + env_queries(p, envs.last().node, p.services.edges@)
    }
}

/// The queries of all projects, project by project.
pub open spec fn all_queries(ps: Seq<RailwayProject>) -> Seq<QueryView>
    decreases ps.len(),
{
    if ps.len() == 0 {
        Seq::empty()
    } else {
        all_queries(ps.drop_last()) + project_queries(ps.last(), ps.last().environments.edges@)
    }
}

/// The listings to run to see every deployment: for each project, each
/// environment, each service.
pub fn deployment_queries(projects: &Vec<RailwayProject>) -> (r: Vec<DeploymentQuery>)
    ensures
        query_views(r@) == all_queries(projects@),
{
    let mut r: Vec<DeploymentQuery> = Vec::new();
    let mut i: usize = 0;
    while i < projects.len()
        invariant
            i <= projects@.len(),
            query_views(r@) == all_queries(projects@.take(i as int)),
        decreases projects@.len() - i,
    {
        let p = &projects[i];
        let envs = &p.environments.edges;
        let svcs = &p.services.edges;
        let ghost base_p = query_views(r@);
        let mut e: usize = 0;
        while e < envs.len()
            invariant
                i < projects@.len(),
                *p == projects@[i as int],
                *envs == p.environments.edges,
                *svcs == p.services.edges,
                e <= envs@.len(),
                query_views(r@) == base_p + project_queries(*p, envs@.take(e as int)),
            decreases envs@.len() - e,
        {
            let env = &envs[e].node;
            let ghost base_e = query_views(r@);
            let mut k: usize = 0;
            while k < svcs.len()
                invariant
                    e < envs@.len(),
                    *env == envs@[e as int].node,
                    *svcs == p.services.edges,
                    k <= svcs@.len(),
                    query_views(r@) == base_e + env_queries(*p, *env, svcs@.take(k as int)),
                decreases svcs@.len() - k,
            {
                let svc = &svcs[k].node;
                let mut label = p.name.clone();
                label.append(" / ");
                label.append(svc.name.as_str());
                let ghost before = r@;
                r.push(DeploymentQuery {
                    project_id: p.id.clone(),
                    service_id: svc.id.clone(),
                    environment_id: env.id.clone(),
                    service_label: label,
                });
                proof {
                    assert(svcs@.take(k as int + 1).drop_last() == svcs@.take(k as int));
                    assert(query_views(r@) =~= query_views(before).push(query_of(*p, *env, *svc)));
                    assert(query_views(r@) =~= base_e + env_queries(*p, *env, svcs@.take(k as int + 1)));
                }
                k = k + 1;
            }
            proof {
                assert(svcs@.take(k as int) == svcs@);
                assert(envs@.take(e as int + 1).drop_last() == envs@.take(e as int));
                assert(query_views(r@) =~= base_p + project_queries(*p, envs@.take(e as int + 1)));
            }
            e = e + 1;
        }
        proof {
            assert(envs@.take(e as int) == envs@);
            assert(projects@.take(i as int + 1).drop_last() == projects@.take(i as int));
            assert(query_views(r@) =~= all_queries(projects@.take(i as int + 1)));
        }
        i = i + 1;
    }
    proof {
        assert(projects@.take(i as int) == projects@);
    }
    r
}

/// What running one query gave.
#[derive(Debug)]
pub struct QueryResult {
    pub query: DeploymentQuery,
    pub result: Result<Vec<RailwayDeployment>, String>,
}

/// A deployment found by query `q`, marked with the query's ids and label.
pub open spec fn query_tagged(d: RailwayDeployment, q: DeploymentQuery) -> RailwayDeployment {
    RailwayDeployment {
        project_id: Some(q.project_id),
        service_id: Some(q.service_id),
        environment_id: Some(q.environment_id),
        service_name: Some(q.service_label),
        ..d
    }
}

/// Each deployment of `ds` marked with the ids and label of `q`.
pub open spec fn query_tagged_all(ds: Seq<RailwayDeployment>, q: DeploymentQuery) -> Seq<RailwayDeployment> {
    ds.map_values(|d: RailwayDeployment| query_tagged(d, q))
}

/// The deployments of all queries, query after query; a failed query
/// contributes nothing.
pub open spec fn results_deployments(rs: Seq<QueryResult>) -> Seq<RailwayDeployment>
    decreases rs.len(),
{
    if rs.len() == 0 {
        Seq::empty()
    } else {
        let rest = results_deployments(rs.drop_last());
        match rs.last().result {
            Ok(ds) => rest + query_tagged_all(ds@, rs.last().query),
            Err(_) => rest,
        }
    }
}

/// The deployments of all queries, each marked with its query, cut to the
/// `limit` latest; failed queries are skipped.
pub fn merge_query_results(results: &Vec<QueryResult>, limit: u32) -> (r: Vec<RailwayDeployment>)
    ensures
        r@ == latest(results_deployments(results@), limit as nat),
{
    let mut all: Vec<RailwayDeployment> = Vec::new();
    let mut i: usize = 0;
    while i < results.len()
        invariant
            i <= results@.len(),
            all@ == results_deployments(results@.take(i as int)),
        decreases results@.len() - i,
    {
        proof {
            assert(results@.take(i as int + 1).drop_last() == results@.take(i as int));
        }
        let q = &results[i].query;
        match &results[i].result {
            Ok(ds) => {
                let ghost base = all@;
                let mut j: usize = 0;
                while j < ds.len()
                    invariant
                        j <= ds@.len(),
                        all@ == base + query_tagged_all(ds@.take(j as int), *q),
                    decreases ds@.len() - j,
                {
                    let mut d = ds[j].duplicate();
                    d.project_id = Some(q.project_id.clone());
                    d.service_id = Some(q.service_id.clone());
                    d.environment_id = Some(q.environment_id.clone());
                    d.service_name = Some(q.service_label.clone());
                    all.push(d);
                    proof {
                        assert(query_tagged_all(ds@.take(j as int + 1), *q) =~= query_tagged_all(ds@.take(j as int), *q).push(
                            query_tagged(ds@[j as int], *q),
                        ));
                        assert(all@ =~= base + query_tagged_all(ds@.take(j as int + 1), *q));
                    }
                    j = j + 1;
                }
                proof {
                    assert(ds@.take(j as int) == ds@);
                }
            },
            Err(_) => {},
        }
        i = i + 1;
    }
    proof {
        assert(results@.take(i as int) == results@);
    }
    let mut sorted = sort_by_created_desc(&all);
    let ghost full = sorted@;
    sorted.truncate(limit as usize);
    proof {
        if (limit as nat) < full.len() {
            assert(sorted@ =~= full.take(limit as int));
        }
    }
    sorted
}

} // verus!
