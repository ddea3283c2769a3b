use deploy_tray::railway::{
    EnvironmentConnection, EnvironmentEdge, RailwayDeployment, RailwayDeploymentStatus, RailwayEnvironment, RailwayProject,
    RailwayService, ServiceConnection, ServiceEdge,
};
use deploy_tray::railway_merge::{
    deployment_queries, merge_query_results, sort_by_created_desc, tag_filtered, text_is_less, DeploymentFilter,
    DeploymentQuery, QueryResult,
};

fn dep(id: &str, created: Option<&str>) -> RailwayDeployment {
    RailwayDeployment {
        id: id.to_string(),
        static_url: None,
        status: RailwayDeploymentStatus::Success,
        created_at: created.map(|s| s.to_string()),
        updated_at: None,
        meta: None,
        project_id: None,
        service_id: None,
        service_name: None,
        environment_id: None,
    }
}

fn project(id: &str, name: &str, services: &[(&str, &str)], envs: &[&str]) -> RailwayProject {
    RailwayProject {
        id: id.to_string(),
        name: name.to_string(),
        description: None,
        updated_at: None,
        services: ServiceConnection {
            edges: services
                .iter()
                .map(|(i, n)| ServiceEdge { node: RailwayService { id: i.to_string(), name: n.to_string(), icon: None } })
                .collect(),
        },
        environments: EnvironmentConnection {
            edges: envs
                .iter()
                .map(|e| EnvironmentEdge { node: RailwayEnvironment { id: e.to_string(), name: e.to_string() } })
                .collect(),
        },
    }
}

fn query(p: &str, s: &str, e: &str, label: &str) -> DeploymentQuery {
    DeploymentQuery {
        project_id: p.to_string(),
        service_id: s.to_string(),
        environment_id: e.to_string(),
        service_label: label.to_string(),
    }
}

fn ids(v: &[RailwayDeployment]) -> Vec<&str> {
    v.iter().map(|d| d.id.as_str()).collect()
}

#[test]
fn text_order_is_by_code_point() {
    assert!(text_is_less("2024-01-01", "2024-01-02"));
    assert!(!text_is_less("2024-01-02", "2024-01-01"));
    assert!(text_is_less("", "a"));
    assert!(!text_is_less("a", "a"));
    assert!(text_is_less("ab", "abc"));
    assert!(text_is_less("Z", "a"));
}

#[test]
fn sorted_latest_first_absent_last() {
    let items = vec![
        dep("a", Some("2024-01-01T00:00:00Z")),
        dep("b", None),
        dep("c", Some("2024-03-01T00:00:00Z")),
        dep("d", Some("2024-01-01T00:00:00Z")),
    ];
    let sorted = sort_by_created_desc(&items);
    assert_eq!(ids(&sorted), vec!["c", "a", "d", "b"]);
}

#[test]
fn filtered_listing_is_tagged_and_sorted() {
    let items = vec![dep("a", Some("1")), dep("b", Some("3")), dep("c", Some("2"))];
    let f = DeploymentFilter { project_id: Some("p".to_string()), service_id: None, environment_id: Some("e".to_string()) };
    let out = tag_filtered(&items, &f);
    assert_eq!(ids(&out), vec!["b", "c", "a"]);
    for d in &out {
        assert_eq!(d.project_id, Some("p".to_string()));
        assert_eq!(d.service_id, None);
        assert_eq!(d.environment_id, Some("e".to_string()));
    }
    assert!(!f.is_unfiltered());
    let none = DeploymentFilter { project_id: None, service_id: None, environment_id: None };
    assert!(none.is_unfiltered());
}

#[test]
fn queries_cover_each_environment_and_service() {
    let projects = vec![
        project("prj-shop", "Shop", &[("s1", "web"), ("s2", "worker")], &["prod", "staging"]),
        project("prj-blog", "Blog", &[("s3", "api")], &["prod"]),
        project("prj-empty", "Empty", &[], &["prod"]),
    ];
    let qs = deployment_queries(&projects);
    let got: Vec<(String, String, String, String)> = qs
        .iter()
        .map(|q| (q.project_id.clone(), q.environment_id.clone(), q.service_id.clone(), q.service_label.clone()))
        .collect();
    let want = vec![
        ("prj-shop", "prod", "s1", "Shop / web"),
        ("prj-shop", "prod", "s2", "Shop / worker"),
        ("prj-shop", "staging", "s1", "Shop / web"),
        ("prj-shop", "staging", "s2", "Shop / worker"),
        ("prj-blog", "prod", "s3", "Blog / api"),
    ];
    let want: Vec<(String, String, String, String)> = want
        .into_iter()
        .map(|(a, b, c, d)| (a.to_string(), b.to_string(), c.to_string(), d.to_string()))
        .collect();
    assert_eq!(got, want);
}

#[test]
fn merge_tags_skips_failures_sorts_and_truncates() {
    let results = vec![
        QueryResult {
            query: query("prj-shop", "s1", "e1", "Shop / web"),
            result: Ok(vec![dep("a", Some("2024-01-01")), dep("b", Some("2024-05-01"))]),
        },
        QueryResult { query: query("prj-shop", "s2", "e1", "Shop / worker"), result: Err("boom".to_string()) },
        QueryResult { query: query("prj-blog", "s3", "e2", "Blog / api"), result: Ok(vec![dep("c", Some("2024-03-01"))]) },
    ];
    let all = merge_query_results(&results, 10);
    assert_eq!(ids(&all), vec!["b", "c", "a"]);
    assert_eq!(all[1].service_name, Some("Blog / api".to_string()));
    assert_eq!(all[1].project_id, Some("prj-blog".to_string()));
    assert_eq!(all[1].service_id, Some("s3".to_string()));
    assert_eq!(all[1].environment_id, Some("e2".to_string()));
    let top = merge_query_results(&results, 2);
    assert_eq!(ids(&top), vec!["b", "c"]);
}
