use deploy_tray::account::CachedAccount;
use deploy_tray::aggregate::{
    collect_deployments, fetch_targets, list_all_deployments, newest_deployments, provider_kind, sort_newest_first,
    AccountFetch, DeploymentBatch, FetchTarget, Provider,
};
use deploy_tray::normalize::{normalize_railway, normalize_vercel, railway_to_unified};
use deploy_tray::railway::{RailwayDeployment, RailwayDeploymentMeta, RailwayDeploymentStatus};
use deploy_tray::unified::{UnifiedDeployment, UnifiedStatus};
use deploy_tray::vercel::{Deployment, DeploymentMeta, DeploymentState};

fn vercel_dep(uid: &str, created: Option<i64>, state: Option<DeploymentState>) -> Deployment {
    Deployment {
        uid: uid.to_string(),
        name: format!("app-{}", uid),
        url: format!("{}.example.app", uid),
        state,
        ready_state: None,
        created_at: created,
        building_at: None,
        ready: None,
        meta: None,
        creator: None,
    }
}

fn railway_dep(id: &str, created: Option<&str>, status: RailwayDeploymentStatus) -> RailwayDeployment {
    RailwayDeployment {
        id: id.to_string(),
        static_url: None,
        status,
        created_at: created.map(|s| s.to_string()),
        updated_at: None,
        meta: None,
        project_id: None,
        service_id: None,
        service_name: None,
        environment_id: None,
    }
}

fn unified(id: &str, created: Option<i64>) -> UnifiedDeployment {
    UnifiedDeployment {
        id: id.to_string(),
        provider: "vercel".to_string(),
        name: id.to_string(),
        url: None,
        status: UnifiedStatus::Ready,
        created_at: created,
        commit_message: None,
        branch: None,
        project_id: None,
        service_id: None,
        git_author_login: None,
        team_slug: None,
    }
}

fn target(id: &str, provider: Provider) -> FetchTarget {
    FetchTarget {
        account_id: id.to_string(),
        provider,
        token: format!("tok-{}", id),
        project_token: false,
        team_slug: Some(format!("team-{}", id)),
    }
}

fn account(id: &str, provider: &str, scope: &str, team_slug: Option<&str>) -> CachedAccount {
    CachedAccount {
        id: id.to_string(),
        username: format!("user-{}", id),
        email: String::new(),
        name: None,
        scope_type: scope.to_string(),
        team_name: None,
        team_slug: team_slug.map(|s| s.to_string()),
        token: format!("tok-{}", id),
        provider: provider.to_string(),
    }
}

fn times(v: &[UnifiedDeployment]) -> Vec<Option<i64>> {
    v.iter().map(|d| d.created_at).collect()
}

#[test]
fn railway_status_mapping_is_total() {
    let cases = [
        (RailwayDeploymentStatus::Initializing, UnifiedStatus::Initializing),
        (RailwayDeploymentStatus::Building, UnifiedStatus::Building),
        (RailwayDeploymentStatus::Deploying, UnifiedStatus::Building),
        (RailwayDeploymentStatus::Success, UnifiedStatus::Ready),
        (RailwayDeploymentStatus::Failed, UnifiedStatus::Error),
        (RailwayDeploymentStatus::Crashed, UnifiedStatus::Error),
        (RailwayDeploymentStatus::Removed, UnifiedStatus::Canceled),
        (RailwayDeploymentStatus::Removing, UnifiedStatus::Canceled),
        (RailwayDeploymentStatus::Sleeping, UnifiedStatus::Ready),
        (RailwayDeploymentStatus::Waiting, UnifiedStatus::Queued),
        (RailwayDeploymentStatus::Queued, UnifiedStatus::Queued),
        (RailwayDeploymentStatus::Skipped, UnifiedStatus::Canceled),
        (RailwayDeploymentStatus::Unknown, UnifiedStatus::Unknown),
    ];
    for (native, expected) in cases {
        assert_eq!(native.to_unified(), expected);
    }
}

#[test]
fn vercel_status_mapping_is_total() {
    let cases = [
        (DeploymentState::Building, "BUILDING"),
        (DeploymentState::Error, "ERROR"),
        (DeploymentState::Initializing, "INITIALIZING"),
        (DeploymentState::Queued, "QUEUED"),
        (DeploymentState::Ready, "READY"),
        (DeploymentState::Canceled, "CANCELED"),
        (DeploymentState::Unknown, "UNKNOWN"),
    ];
    for (native, text) in cases {
        assert_eq!(native.to_unified().as_str(), text);
    }
}

#[test]
fn vercel_state_falls_back_to_ready_state_then_unknown() {
    let mut d = vercel_dep("a", None, None);
    assert_eq!(d.get_state(), DeploymentState::Unknown);
    d.ready_state = Some(DeploymentState::Ready);
    assert_eq!(d.get_state(), DeploymentState::Ready);
    d.state = Some(DeploymentState::Building);
    assert_eq!(d.get_state(), DeploymentState::Building);
}

#[test]
fn normalize_vercel_record() {
    let mut d = vercel_dep("abc", Some(1700), Some(DeploymentState::Queued));
    d.meta = Some(DeploymentMeta {
        commit_message: Some("fix".to_string()),
        branch: Some("main".to_string()),
        git_author_login: Some("octo".to_string()),
    });
    let u = normalize_vercel(&d, &"acme".to_string());
    assert_eq!(u.id, "abc");
    assert_eq!(u.provider, "vercel");
    assert_eq!(u.name, "app-abc");
    assert_eq!(u.url, Some("https://abc.example.app".to_string()));
    assert_eq!(u.status, UnifiedStatus::Queued);
    assert_eq!(u.created_at, Some(1700));
    assert_eq!(u.commit_message, Some("fix".to_string()));
    assert_eq!(u.branch, Some("main".to_string()));
    assert_eq!(u.git_author_login, Some("octo".to_string()));
    assert_eq!(u.project_id, Some("app-abc".to_string()));
    assert_eq!(u.service_id, None);
    assert_eq!(u.team_slug, Some("acme".to_string()));
}

#[test]
fn normalize_railway_record_parses_time() {
    let mut d = railway_dep("r1", Some("2024-01-01T00:00:00Z"), RailwayDeploymentStatus::Success);
    d.service_name = Some("proj / web".to_string());
    d.meta = Some(RailwayDeploymentMeta {
        commit_message: Some("ship".to_string()),
        branch: Some("prod".to_string()),
        commit_hash: None,
    });
    d.project_id = Some("p".to_string());
    let u = normalize_railway(&d);
    assert_eq!(u.provider, "railway");
    assert_eq!(u.name, "proj / web");
    assert_eq!(u.status, UnifiedStatus::Ready);
    assert_eq!(u.created_at, Some(1_704_067_200_000));
    assert_eq!(u.commit_message, Some("ship".to_string()));
    assert_eq!(u.branch, Some("prod".to_string()));
    assert_eq!(u.project_id, Some("p".to_string()));
    assert_eq!(u.git_author_login, None);
    assert_eq!(u.team_slug, None);
}

#[test]
fn normalize_railway_with_offset_and_millis() {
    let d = railway_dep("r1", Some("2024-01-01T01:00:00.250+01:00"), RailwayDeploymentStatus::Building);
    assert_eq!(normalize_railway(&d).created_at, Some(1_704_067_200_250));
}

#[test]
fn unparsable_railway_time_is_absent() {
    let d = railway_dep("r2", Some("yesterday"), RailwayDeploymentStatus::Failed);
    let u = normalize_railway(&d);
    assert_eq!(u.created_at, None);
    assert_eq!(u.name, "Deployment");
    assert_eq!(u.status, UnifiedStatus::Error);
    let none = railway_dep("r3", None, RailwayDeploymentStatus::Unknown);
    assert_eq!(normalize_railway(&none).created_at, None);
}

#[test]
fn railway_to_unified_takes_given_time() {
    let d = railway_dep("r4", Some("not a date"), RailwayDeploymentStatus::Waiting);
    let u = railway_to_unified(&d, Some(42));
    assert_eq!(u.created_at, Some(42));
    assert_eq!(u.status, UnifiedStatus::Queued);
}

#[test]
fn ordering_puts_absent_time_last() {
    let items = vec![unified("a", Some(100)), unified("b", Some(50)), unified("c", Some(200)), unified("d", None)];
    let sorted = sort_newest_first(&items);
    assert_eq!(times(&sorted), vec![Some(200), Some(100), Some(50), None]);
}

#[test]
fn ordering_is_stable_for_equal_times() {
    let items = vec![unified("a", Some(5)), unified("b", None), unified("c", Some(5)), unified("d", Some(0))];
    let sorted = sort_newest_first(&items);
    let ids: Vec<&str> = sorted.iter().map(|d| d.id.as_str()).collect();
    assert_eq!(ids, vec!["a", "c", "b", "d"]);
    let again = sort_newest_first(&items);
    let ids2: Vec<&str> = again.iter().map(|d| d.id.as_str()).collect();
    assert_eq!(ids, ids2);
}

#[test]
fn truncation_keeps_most_recent() {
    let items: Vec<UnifiedDeployment> =
        [3i64, 9, 1, 7, 5, 10, 2, 8, 4, 6].iter().map(|t| unified(&format!("d{}", t), Some(*t))).collect();
    let top = newest_deployments(&items, 3);
    assert_eq!(top.len(), 3);
    assert_eq!(times(&top), vec![Some(10), Some(9), Some(8)]);
    assert_eq!(newest_deployments(&items, 20).len(), 10);
    assert_eq!(newest_deployments(&items, 0).len(), 0);
}

#[test]
fn failed_account_contributes_nothing() {
    let fetches = vec![
        AccountFetch {
            target: target("a", Provider::Vercel),
            result: Ok(DeploymentBatch::Vercel(vec![vercel_dep("a1", Some(10), None), vercel_dep("a2", Some(30), None)])),
        },
        AccountFetch { target: target("b", Provider::Railway), result: Err("unreachable".to_string()) },
        AccountFetch {
            target: target("c", Provider::Railway),
            result: Ok(DeploymentBatch::Railway(vec![railway_dep(
                "c1",
                Some("1970-01-01T00:00:00.020Z"),
                RailwayDeploymentStatus::Success,
            )])),
        },
    ];
    let all = collect_deployments(&fetches);
    assert_eq!(all.len(), 3);
    let listed = list_all_deployments(&fetches, 8);
    let ids: Vec<&str> = listed.iter().map(|d| d.id.as_str()).collect();
    assert_eq!(ids, vec!["a2", "c1", "a1"]);
    assert_eq!(listed[0].team_slug, Some("team-a".to_string()));
}

#[test]
fn aggregation_of_nothing_is_empty() {
    let fetches: Vec<AccountFetch> = Vec::new();
    assert!(list_all_deployments(&fetches, 8).is_empty());
}

#[test]
fn provider_names() {
    assert_eq!(provider_kind(&"vercel".to_string()), Some(Provider::Vercel));
    assert_eq!(provider_kind(&"railway".to_string()), Some(Provider::Railway));
    assert_eq!(provider_kind(&"heroku".to_string()), None);
}

#[test]
fn targets_follow_account_provider_and_scope() {
    let accounts = vec![
        account("v1", "vercel", "team", Some("acme")),
        account("v2", "vercel", "user", None),
        account("x", "other", "user", None),
        account("r1", "railway", "project", None),
        account("r2", "railway", "workspace", None),
    ];
    let ts = fetch_targets(&accounts);
    assert_eq!(ts.len(), 4);
    assert_eq!(ts[0].provider, Provider::Vercel);
    assert_eq!(ts[0].team_slug, Some("acme".to_string()));
    assert_eq!(ts[1].team_slug, Some("user-v2".to_string()));
    assert_eq!(ts[2].account_id, "r1");
    assert!(ts[2].project_token);
    assert!(!ts[3].project_token);
    assert_eq!(ts[3].token, "tok-r2");
}
