//! Records of the first provider, as its API returns them.
use vstd::prelude::*;
use crate::unified::UnifiedStatus;

verus! {

#[derive(Debug, Clone)]
pub struct User {
    pub id: String,
    pub email: String,
    pub name: Option<String>,
    pub username: String,
}

#[derive(Debug, Clone)]
pub struct Project {
    pub id: String,
    pub name: String,
    pub framework: Option<String>,
    pub updated_at: Option<i64>,
}

/// Native deployment state; any value the API adds later reads as `Unknown`.
#[derive(Debug, Clone, Copy, PartialEq, Eq, Structural)]
pub enum DeploymentState {
    Building,
    Error,
    Initializing,
    Queued,
    Ready,
    Canceled,
    Unknown,
}

/// The unified status of a native state: each named state maps to the
/// unified status of the same name.
pub open spec fn vercel_unified(s: DeploymentState) -> UnifiedStatus {
    match s {
        DeploymentState::Building => UnifiedStatus::Building,
        DeploymentState::Error => UnifiedStatus::Error,
        DeploymentState::Initializing => UnifiedStatus::Initializing,
        DeploymentState::Queued => UnifiedStatus::Queued,
        DeploymentState::Ready => UnifiedStatus::Ready,
        DeploymentState::Canceled => UnifiedStatus::Canceled,
        DeploymentState::Unknown => UnifiedStatus::Unknown,
    }
}

/// A state that means a build is still under way.
pub open spec fn vercel_in_progress(s: DeploymentState) -> bool {
    s == DeploymentState::Building || s == DeploymentState::Queued || s == DeploymentState::Initializing
}

impl DeploymentState {
    /// The unified status of this native state.
    pub fn to_unified(&self) -> (r: UnifiedStatus)
        ensures
            r == vercel_unified(*self),
    {
        match self {
            DeploymentState::Building => UnifiedStatus::Building,
            DeploymentState::Error => UnifiedStatus::Error,
            DeploymentState::Initializing => UnifiedStatus::Initializing,
            DeploymentState::Queued => UnifiedStatus::Queued,
            DeploymentState::Ready => UnifiedStatus::Ready,
            DeploymentState::Canceled => UnifiedStatus::Canceled,
            DeploymentState::Unknown => UnifiedStatus::Unknown,
        }
    }

    /// Whether a build is still under way in this state.
    pub fn is_in_progress(&self) -> (r: bool)
        ensures
            r == vercel_in_progress(*self),
    {
        match self {
            DeploymentState::Building | DeploymentState::Queued | DeploymentState::Initializing => true,
            _ => false,
        }
    }
}

#[derive(Debug, Clone)]
pub struct DeploymentMeta {
    pub commit_message: Option<String>,
    pub branch: Option<String>,
    pub git_author_login: Option<String>,
}

#[derive(Debug, Clone)]
pub struct DeploymentCreator {
    pub uid: String,
    pub username: Option<String>,
    pub email: Option<String>,
}

#[derive(Debug, Clone)]
pub struct Deployment {
    pub uid: String,
    pub name: String,
    pub url: String,
    pub state: Option<DeploymentState>,
    pub ready_state: Option<DeploymentState>,
    pub created_at: Option<i64>,
    pub building_at: Option<i64>,
    pub ready: Option<i64>,
    pub meta: Option<DeploymentMeta>,
    pub creator: Option<DeploymentCreator>,
}

/// The state of a deployment: `state`, else `ready_state`, else `Unknown`.
pub open spec fn effective_state(d: Deployment) -> DeploymentState {
    match d.state {
        Some(s) => s,
        None => match d.ready_state {
            Some(s) => s,
            None => DeploymentState::Unknown,
        },
    }
}

impl Deployment {
    /// The state of the deployment: `state`, else `ready_state`, else `Unknown`.
    pub fn get_state(&self) -> (r: DeploymentState)
        ensures
            r == effective_state(*self),
    {
        match self.state {
            Some(s) => s,
            None => match self.ready_state {
                Some(s) => s,
                None => DeploymentState::Unknown,
            },
        }
    }
}

#[derive(Debug, Clone)]
pub struct TokenScope {
    pub scope_type: String,
    pub created_at: i64,
    pub origin: Option<String>,
    pub expires_at: Option<i64>,
}

#[derive(Debug, Clone)]
pub struct TokenInfo {
    pub id: String,
    pub name: String,
    pub token_type: String,
    pub active_at: Option<i64>,
    pub created_at: i64,
    pub expires_at: Option<i64>,
    pub scopes: Vec<TokenScope>,
    pub team_id: Option<String>,
}

#[derive(Debug, Clone)]
pub struct Team {
    pub id: String,
    pub name: String,
    pub slug: String,
    pub avatar: Option<String>,
}

} // verus!
