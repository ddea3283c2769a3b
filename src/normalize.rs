//! Mapping each provider's deployment records into the unified record.
use vstd::prelude::*;
use crate::account::copy_opt;
use crate::railway::{railway_unified, RailwayDeployment, RailwayDeploymentMeta, RailwayDeploymentStatus};
use crate::state::opt_view;
use crate::unified::{DeploymentView, UnifiedDeployment, UnifiedStatus};
use crate::vercel::{effective_state, vercel_unified, Deployment, DeploymentMeta, DeploymentState};

verus! {

/// Milliseconds since the Unix epoch of an RFC 3339 date-time, if it parses.
pub uninterp spec fn rfc3339_millis(s: Seq<char>) -> Option<i64>;

/// Relies on chrono's `DateTime::parse_from_rfc3339`, whose result is read
/// through `DateTime::timestamp_millis`: the instant a date-time text
/// denotes, or nothing where the text is not RFC 3339.
#[verifier::external_body]
fn parse_rfc3339_millis(s: &str) -> (r: Option<i64>)
    ensures
        r == rfc3339_millis(s@),
{
    chrono::DateTime::parse_from_rfc3339(s).ok().map(|dt| dt.timestamp_millis())
}

/// A commit field of the first provider's metadata: the message (0), the
/// branch (1) or the author's login (any other); absent without metadata.
pub open spec fn vercel_meta_field(m: Option<DeploymentMeta>, which: int) -> Option<Seq<char>> {
    match m {
        Some(m) => if which == 0 {
            opt_view(m.commit_message)
        } else if which == 1 {
            opt_view(m.branch)
        } else {
            opt_view(m.git_author_login)
        },
        None => None,
    }
}

/// A commit field of the second provider's metadata: the message (0) or
/// the branch (any other); absent without metadata.
pub open spec fn railway_meta_field(m: Option<RailwayDeploymentMeta>, which: int) -> Option<Seq<char>> {
    match m {
        Some(m) => if which == 0 {
            opt_view(m.commit_message)
        } else {
            opt_view(m.branch)
        },
        None => None,
    }
}

/// The unified view of a deployment of the first provider, listed under
/// the team (or user) slug `team_slug`.
pub open spec fn vercel_view(d: Deployment, team_slug: Seq<char>) -> DeploymentView {
    DeploymentView {
        id: d.uid@,
        provider: "vercel"@,
        name: d.name@,
        url: Some("https://"@ + d.url@),
        status: vercel_unified(effective_state(d)),
        created_at: d.created_at,
        commit_message: vercel_meta_field(d.meta, 0),
        branch: vercel_meta_field(d.meta, 1),
        project_id: Some(d.name@),
        service_id: None,
        git_author_login: vercel_meta_field(d.meta, 2),
        team_slug: Some(team_slug),
    }
}

/// The unified view of a deployment of the second provider, created at
/// `created_at` (epoch milliseconds).
pub open spec fn railway_view(d: RailwayDeployment, created_at: Option<i64>) -> DeploymentView {
    DeploymentView {
        id: d.id@,
        provider: "railway"@,
        name: match d.service_name {
            Some(n) => n@,
            None => "Deployment"@,
        },
        url: opt_view(d.static_url),
        status: railway_unified(d.status),
        created_at,
        commit_message: railway_meta_field(d.meta, 0),
        branch: railway_meta_field(d.meta, 1),
        project_id: opt_view(d.project_id),
        service_id: opt_view(d.service_id),
        git_author_login: None,
        team_slug: None,
    }
}

/// The creation time of a deployment of the second provider, in epoch
/// milliseconds; absent where the text is absent or does not parse.
pub open spec fn railway_created_millis(d: RailwayDeployment) -> Option<i64> {
    match d.created_at {
        Some(s) => rfc3339_millis(s@),
        None => None,
    }
}

/// The unified record of a deployment of the first provider.
pub fn normalize_vercel(d: &Deployment, team_slug: &String) -> (r: UnifiedDeployment)
    ensures
        r@ == vercel_view(*d, team_slug@),
{
    let mut url = String::from_str("https://");
    url.append(d.url.as_str());
    let (commit_message, branch, git_author_login) = match &d.meta {
        Some(m) => (copy_opt(&m.commit_message), copy_opt(&m.branch), copy_opt(&m.git_author_login)),
        None => (None, None, None),
    };
    UnifiedDeployment {
        id: d.uid.clone(),
        provider: String::from_str("vercel"),
        name: d.name.clone(),
        url: Some(url),
        status: d.get_state().to_unified(),
        created_at: d.created_at,
        commit_message,
        branch,
        project_id: Some(d.name.clone()),
        service_id: None,
        git_author_login,
        team_slug: Some(team_slug.clone()),
    }
}

/// The unified record of a deployment of the second provider whose
/// creation time has already been read as `created_at`.
pub fn railway_to_unified(d: &RailwayDeployment, created_at: Option<i64>) -> (r: UnifiedDeployment)
    ensures
        r@ == railway_view(*d, created_at),
{
    let name = match &d.service_name {
        Some(n) => n.clone(),
        None => String::from_str("Deployment"),
    };
    let (commit_message, branch) = match &d.meta {
        Some(m) => (copy_opt(&m.commit_message), copy_opt(&m.branch)),
        None => (None, None),
    };
    UnifiedDeployment {
        id: d.id.clone(),
        provider: String::from_str("railway"),
        name,
        url: copy_opt(&d.static_url),
        status: d.status.to_unified(),
        created_at,
        commit_message,
        branch,
        project_id: copy_opt(&d.project_id),
        service_id: copy_opt(&d.service_id),
        git_author_login: None,
        team_slug: None,
    }
}

/// The unified record of a deployment of the second provider; a creation
/// time that does not parse is left absent.
pub fn normalize_railway(d: &RailwayDeployment) -> (r: UnifiedDeployment)
    ensures
        r@ == railway_view(*d, railway_created_millis(*d)),
{
    let created_at = match &d.created_at {
        Some(s) => parse_rfc3339_millis(s.as_str()),
        None => None,
    };
    railway_to_unified(d, created_at)
}

/// Every native status of either provider maps to one of the unified
/// statuses, and it maps to `Unknown` exactly when the native status is
/// itself unknown (unmapped).
pub proof fn lemma_status_mapping_total(v: DeploymentState, r: RailwayDeploymentStatus)
    ensures
        vercel_unified(v) == UnifiedStatus::Unknown <==> v == DeploymentState::Unknown,
        railway_unified(r) == UnifiedStatus::Unknown <==> r == RailwayDeploymentStatus::Unknown,
{
}

} // verus!
