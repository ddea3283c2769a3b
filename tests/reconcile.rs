use deploy_tray::aggregate::{AccountFetch, DeploymentBatch, FetchTarget, Provider};
use deploy_tray::railway::{RailwayDeployment, RailwayDeploymentStatus};
use deploy_tray::reconcile::{
    get_building_flag, has_build_in_progress, reconcile_tick, set_building_flag, should_poll, BuildingFlag,
    IDLE_INTERVAL_SECS, POLL_INTERVAL_SECS,
};
use deploy_tray::vercel::{Deployment, DeploymentState};

fn target(id: &str, provider: Provider) -> FetchTarget {
    FetchTarget { account_id: id.to_string(), provider, token: String::new(), project_token: false, team_slug: None }
}

fn vercel(states: &[Option<DeploymentState>]) -> AccountFetch {
    let ds = states
        .iter()
        .enumerate()
        .map(|(i, s)| Deployment {
            uid: format!("d{}", i),
            name: String::new(),
            url: String::new(),
            state: *s,
            ready_state: None,
            created_at: None,
            building_at: None,
            ready: None,
            meta: None,
            creator: None,
        })
        .collect();
    AccountFetch { target: target("v", Provider::Vercel), result: Ok(DeploymentBatch::Vercel(ds)) }
}

fn railway(statuses: &[RailwayDeploymentStatus]) -> AccountFetch {
    let ds = statuses
        .iter()
        .enumerate()
        .map(|(i, s)| RailwayDeployment {
            id: format!("r{}", i),
            static_url: None,
            status: *s,
            created_at: None,
            updated_at: None,
            meta: None,
            project_id: None,
            service_id: None,
            service_name: None,
            environment_id: None,
        })
        .collect();
    AccountFetch { target: target("r", Provider::Railway), result: Ok(DeploymentBatch::Railway(ds)) }
}

fn flag(on: bool) -> BuildingFlag {
    let mut f = BuildingFlag::new();
    set_building_flag(&mut f, on);
    f
}

#[test]
fn flag_set_and_get() {
    let mut f = BuildingFlag::new();
    assert!(!get_building_flag(&f));
    set_building_flag(&mut f, true);
    assert!(get_building_flag(&f));
    set_building_flag(&mut f, false);
    assert!(!get_building_flag(&f));
}

#[test]
fn all_finished_clears_flag_and_notifies_once() {
    let mut f = flag(true);
    let polled = vec![
        vercel(&[Some(DeploymentState::Ready), Some(DeploymentState::Error)]),
        railway(&[RailwayDeploymentStatus::Success, RailwayDeploymentStatus::Removed]),
        AccountFetch { target: target("x", Provider::Vercel), result: Err("down".to_string()) },
    ];
    let out = reconcile_tick(&mut f, true, &polled);
    assert!(!out.building);
    assert!(out.notify_normal);
    assert_eq!(out.sleep_secs, POLL_INTERVAL_SECS);
    assert!(!get_building_flag(&f));
    let next = reconcile_tick(&mut f, true, &polled);
    assert!(!next.notify_normal);
    assert_eq!(next.sleep_secs, IDLE_INTERVAL_SECS);
}

#[test]
fn build_in_progress_keeps_flag() {
    let mut f = flag(true);
    let polled = vec![
        vercel(&[Some(DeploymentState::Ready)]),
        railway(&[RailwayDeploymentStatus::Success, RailwayDeploymentStatus::Deploying]),
    ];
    let out = reconcile_tick(&mut f, true, &polled);
    assert!(out.building);
    assert!(!out.notify_normal);
    assert_eq!(out.sleep_secs, POLL_INTERVAL_SECS);
    assert!(get_building_flag(&f));
}

#[test]
fn idle_tick_does_nothing() {
    let mut f = flag(false);
    let polled = vec![vercel(&[Some(DeploymentState::Building)])];
    let out = reconcile_tick(&mut f, true, &polled);
    assert!(!out.building);
    assert!(!out.notify_normal);
    assert_eq!(out.sleep_secs, IDLE_INTERVAL_SECS);
    assert!(!should_poll(&f, true));
}

#[test]
fn unfilled_cache_keeps_flag_without_polling() {
    let mut f = flag(true);
    assert!(!should_poll(&f, false));
    let out = reconcile_tick(&mut f, false, &Vec::new());
    assert!(out.building);
    assert!(!out.notify_normal);
    assert_eq!(out.sleep_secs, POLL_INTERVAL_SECS);
}

#[test]
fn in_progress_classes_per_provider() {
    assert!(has_build_in_progress(&vercel(&[Some(DeploymentState::Queued)])));
    assert!(has_build_in_progress(&vercel(&[Some(DeploymentState::Initializing)])));
    assert!(!has_build_in_progress(&vercel(&[None, Some(DeploymentState::Canceled)])));
    assert!(has_build_in_progress(&railway(&[RailwayDeploymentStatus::Initializing])));
    assert!(!has_build_in_progress(&railway(&[RailwayDeploymentStatus::Queued, RailwayDeploymentStatus::Waiting])));
    let failed = AccountFetch { target: target("x", Provider::Railway), result: Err("e".to_string()) };
    assert!(!has_build_in_progress(&failed));
}
