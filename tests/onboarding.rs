use deploy_tray::onboard::{new_railway_account, railway_account, railway_account_id, team_to_look_up, vercel_account};
use deploy_tray::railway::{GraphQLError, GraphQLFailure, GraphQLResponse};
use deploy_tray::vercel::{Team, TokenInfo, User};

fn user() -> User {
    User { id: "u1".to_string(), email: "u@example.com".to_string(), name: Some("U".to_string()), username: "uu".to_string() }
}

fn info(team: Option<&str>) -> TokenInfo {
    TokenInfo {
        id: "t".to_string(),
        name: "token".to_string(),
        token_type: "oauth".to_string(),
        active_at: None,
        created_at: 0,
        expires_at: None,
        scopes: Vec::new(),
        team_id: team.map(|s| s.to_string()),
    }
}

#[test]
fn vercel_team_token() {
    let team = Team { id: "team_1".to_string(), name: "Acme".to_string(), slug: "acme".to_string(), avatar: None };
    let i = Some(info(Some("team_1")));
    assert_eq!(team_to_look_up(&i), Some("team_1".to_string()));
    let a = vercel_account("secret".to_string(), &user(), &i, &Some(team));
    assert_eq!(a.id, "u1");
    assert_eq!(a.scope_type, "team");
    assert_eq!(a.team_name, Some("Acme".to_string()));
    assert_eq!(a.team_slug, Some("acme".to_string()));
    assert_eq!(a.token, "secret");
    assert_eq!(a.provider, "vercel");
}

#[test]
fn vercel_team_token_without_team_details() {
    let a = vercel_account("s".to_string(), &user(), &Some(info(Some("team_1"))), &None);
    assert_eq!(a.scope_type, "team");
    assert_eq!(a.team_name, None);
}

#[test]
fn vercel_user_token() {
    let i = Some(info(None));
    assert_eq!(team_to_look_up(&i), None);
    let a = vercel_account("s".to_string(), &user(), &i, &None);
    assert_eq!(a.scope_type, "user");
    let b = vercel_account("s".to_string(), &user(), &None, &None);
    assert_eq!(b.scope_type, "user");
    assert_eq!(b.username, "uu");
    assert_eq!(b.email, "u@example.com");
}

#[test]
fn railway_id_from_hash() {
    let h = "900150983cd24fb0d6963f7d28e17f72".to_string();
    assert_eq!(railway_account_id(true, &h), "railway_ws_90015098");
    assert_eq!(railway_account_id(false, &h), "railway_proj_90015098");
}

#[test]
fn railway_workspace_account_uses_md5_of_token() {
    let a = new_railway_account("abc".to_string(), "workspace", Some("My WS".to_string()));
    assert_eq!(a.id, "railway_ws_90015098");
    assert_eq!(a.username, "My WS");
    assert_eq!(a.name, Some("My WS".to_string()));
    assert_eq!(a.email, "workspace@railway.app");
    assert_eq!(a.scope_type, "workspace");
    assert_eq!(a.team_name, Some("My WS".to_string()));
    assert_eq!(a.team_slug, None);
    assert_eq!(a.provider, "railway");
    assert_eq!(a.token, "abc");
}

#[test]
fn railway_project_account_defaults() {
    let a = new_railway_account("".to_string(), "project", None);
    assert_eq!(a.id, "railway_proj_d41d8cd9");
    assert_eq!(a.username, "Railway Project");
    assert_eq!(a.email, "project@railway.app");
    assert_eq!(a.scope_type, "project");
    assert_eq!(a.team_name, None);
}

#[test]
fn railway_account_from_given_hash() {
    let a = railway_account("t".to_string(), "workspace", None, &"0123456789".to_string());
    assert_eq!(a.id, "railway_ws_01234567");
    assert_eq!(a.username, "Railway Workspace");
}

#[test]
fn graphql_errors_win_over_data() {
    let r = GraphQLResponse {
        data: Some(1u32),
        errors: Some(vec![GraphQLError { message: "a".to_string() }, GraphQLError { message: "b".to_string() }]),
    };
    match r.into_data() {
        Err(GraphQLFailure::Errors(ms)) => assert_eq!(ms, vec!["a".to_string(), "b".to_string()]),
        other => panic!("unexpected {:?}", other),
    }
}

#[test]
fn graphql_data_and_missing_data() {
    let ok: GraphQLResponse<u32> = GraphQLResponse { data: Some(7), errors: Some(Vec::new()) };
    assert!(matches!(ok.into_data(), Ok(7)));
    let none: GraphQLResponse<u32> = GraphQLResponse { data: None, errors: None };
    assert!(matches!(none.into_data(), Err(GraphQLFailure::NoData)));
}
