//! The provider-agnostic deployment record.
use vstd::prelude::*;

verus! {

/// The canonical deployment status shared by both providers.
#[derive(Debug, Clone, Copy, PartialEq, Eq, Structural)]
pub enum UnifiedStatus {
    Initializing,
    Queued,
    Building,
    Ready,
    Error,
    Canceled,
    Unknown,
}

/// The upper-case name of each status.
pub open spec fn status_text(s: UnifiedStatus) -> Seq<char> {
    match s {
        UnifiedStatus::Initializing => "INITIALIZING"@,
        UnifiedStatus::Queued => "QUEUED"@,
        UnifiedStatus::Building => "BUILDING"@,
        UnifiedStatus::Ready => "READY"@,
        UnifiedStatus::Error => "ERROR"@,
        UnifiedStatus::Canceled => "CANCELED"@,
        UnifiedStatus::Unknown => "UNKNOWN"@,
    }
}

/// A status in which a deployment has finished, one way or another.
pub open spec fn is_terminal(s: UnifiedStatus) -> bool {
    s == UnifiedStatus::Ready || s == UnifiedStatus::Error || s == UnifiedStatus::Canceled
}

impl UnifiedStatus {
    /// The upper-case name of the status.
    pub fn as_str(&self) -> (r: &'static str)
        ensures
            r@ == status_text(*self),
    {
        match self {
            UnifiedStatus::Initializing => "INITIALIZING",
            UnifiedStatus::Queued => "QUEUED",
            UnifiedStatus::Building => "BUILDING",
            UnifiedStatus::Ready => "READY",
            UnifiedStatus::Error => "ERROR",
            UnifiedStatus::Canceled => "CANCELED",
            UnifiedStatus::Unknown => "UNKNOWN",
        }
    }
}

/// A deployment of either provider, in one shape.
#[derive(Debug, Clone)]
pub struct UnifiedDeployment {
    pub id: String,
    pub provider: String,
    pub name: String,
    pub url: Option<String>,
    pub status: UnifiedStatus,
    /// Milliseconds since the Unix epoch.
    pub created_at: Option<i64>,
    pub commit_message: Option<String>,
    pub branch: Option<String>,
    pub project_id: Option<String>,
    pub service_id: Option<String>,
    pub git_author_login: Option<String>,
    pub team_slug: Option<String>,
}

/// A unified deployment seen as mathematical values.
pub struct DeploymentView {
    pub id: Seq<char>,
    pub provider: Seq<char>,
    pub name: Seq<char>,
    pub url: Option<Seq<char>>,
    pub status: UnifiedStatus,
    pub created_at: Option<i64>,
    pub commit_message: Option<Seq<char>>,
    pub branch: Option<Seq<char>>,
    pub project_id: Option<Seq<char>>,
    pub service_id: Option<Seq<char>>,
    pub git_author_login: Option<Seq<char>>,
    pub team_slug: Option<Seq<char>>,
}

impl View for UnifiedDeployment {
    type V = DeploymentView;

    open spec fn view(&self) -> DeploymentView {
        DeploymentView {
            id: self.id@,
            provider: self.provider@,
            name: self.name@,
            url: crate::state::opt_view(self.url),
            status: self.status,
            created_at: self.created_at,
            commit_message: crate::state::opt_view(self.commit_message),
            branch: crate::state::opt_view(self.branch),
            project_id: crate::state::opt_view(self.project_id),
            service_id: crate::state::opt_view(self.service_id),
            git_author_login: crate::state::opt_view(self.git_author_login),
            team_slug: crate::state::opt_view(self.team_slug),
        }
    }
}

impl UnifiedDeployment {
    /// A field-by-field copy, equal to `self`.
    pub fn duplicate(&self) -> (r: UnifiedDeployment)
        ensures
            r == *self,
    {
        UnifiedDeployment {
            id: self.id.clone(),
            provider: self.provider.clone(),
            name: self.name.clone(),
            url: crate::account::copy_opt(&self.url),
            status: self.status,
            created_at: self.created_at,
            commit_message: crate::account::copy_opt(&self.commit_message),
            branch: crate::account::copy_opt(&self.branch),
            project_id: crate::account::copy_opt(&self.project_id),
            service_id: crate::account::copy_opt(&self.service_id),
            git_author_login: crate::account::copy_opt(&self.git_author_login),
            team_slug: crate::account::copy_opt(&self.team_slug),
        }
    }
}

} // verus!
