//! Records of the second provider, as its GraphQL API returns them.
use vstd::prelude::*;
use crate::account::copy_opt;
use crate::unified::UnifiedStatus;

verus! {

/// The envelope of every GraphQL answer.
#[derive(Debug, Clone)]
pub struct GraphQLResponse<T> {
    pub data: Option<T>,
    pub errors: Option<Vec<GraphQLError>>,
}

#[derive(Debug, Clone)]
pub struct GraphQLError {
    pub message: String,
}

/// Why a GraphQL answer carried no usable data.
#[derive(Debug, Clone)]
pub enum GraphQLFailure {
    /// The server reported these error messages.
    Errors(Vec<String>),
    /// The answer held neither errors nor data.
    NoData,
}

/// The views of a sequence of strings.
pub open spec fn string_views(s: Seq<String>) -> Seq<Seq<char>> {
    s.map_values(|m: String| m@)
}

/// The messages of a list of GraphQL errors, in order.
pub open spec fn messages_of(errs: Seq<GraphQLError>) -> Seq<Seq<char>> {
    errs.map_values(|e: GraphQLError| e.message@)
}

impl<T> GraphQLResponse<T> {
    /// The data of the answer; a non-empty error list wins over any data.
    pub fn into_data(self) -> (r: Result<T, GraphQLFailure>)
        ensures
            match self.errors {
                Some(errs) if errs@.len() > 0 => match r {
                    Err(GraphQLFailure::Errors(ms)) => string_views(ms@) == messages_of(errs@),
                    _ => false,
                },
                _ => match self.data {
                    Some(d) => r == Ok::<T, GraphQLFailure>(d),
                    None => r is Err && r->Err_0 is NoData,
                },
            },
    {
        match self.errors {
            Some(errs) => {
                if errs.len() > 0 {
                    let mut ms: Vec<String> = Vec::new();
                    let mut i: usize = 0;
                    while i < errs.len()
                        invariant
                            i <= errs@.len(),
                            ms@.len() == i,
                            string_views(ms@) == messages_of(errs@.take(i as int)),
                        decreases errs@.len() - i,
                    {
                        let ghost before = ms@;
                        ms.push(errs[i].message.clone());
                        proof {
                            let next = errs@.take(i as int + 1);
                            assert forall|k: int| 0 <= k < ms@.len() implies string_views(ms@)[k] == messages_of(next)[k] by {
                                if k < i {
                                    assert(ms@[k] == before[k]);
                                    assert(string_views(before)[k] == messages_of(errs@.take(i as int))[k]);
                                }
                            }
                            assert(string_views(ms@) =~= messages_of(next));
                        }
                        i = i + 1;
                    }
                    proof {
                        assert(errs@.take(i as int) == errs@);
                    }
                    return Err(GraphQLFailure::Errors(ms));
                }
            },
            None => {},
        }
        match self.data {
            Some(d) => Ok(d),
            None => Err(GraphQLFailure::NoData),
        }
    }
}

#[derive(Debug, Clone)]
pub struct RailwayUser {
    pub id: String,
    pub email: String,
    pub name: Option<String>,
}

#[derive(Debug, Clone)]
pub struct RailwayService {
    pub id: String,
    pub name: String,
    pub icon: Option<String>,
}

#[derive(Debug, Clone)]
pub struct ServiceEdge {
    pub node: RailwayService,
}

#[derive(Debug, Clone)]
pub struct ServiceConnection {
    pub edges: Vec<ServiceEdge>,
}

#[derive(Debug, Clone)]
pub struct RailwayEnvironment {
    pub id: String,
    pub name: String,
}

#[derive(Debug, Clone)]
pub struct EnvironmentEdge {
    pub node: RailwayEnvironment,
}

#[derive(Debug, Clone)]
pub struct EnvironmentConnection {
    pub edges: Vec<EnvironmentEdge>,
}

#[derive(Debug, Clone)]
pub struct RailwayProject {
    pub id: String,
    pub name: String,
    pub description: Option<String>,
    pub updated_at: Option<String>,
    pub services: ServiceConnection,
    pub environments: EnvironmentConnection,
}

#[derive(Debug, Clone)]
pub struct RailwayWorkspace {
    pub id: String,
    pub name: String,
    pub avatar: Option<String>,
}

/// Native deployment status; any value the API adds later reads as `Unknown`.
#[derive(Debug, Clone, Copy, PartialEq, Eq, Structural)]
pub enum RailwayDeploymentStatus {
    Initializing,
    Building,
    Deploying,
    Success,
    Failed,
    Crashed,
    Removed,
    Removing,
    Sleeping,
    Waiting,
    Queued,
    Skipped,
    Unknown,
}

/// The unified status of each native status.
pub open spec fn railway_unified(s: RailwayDeploymentStatus) -> UnifiedStatus {
    match s {
        RailwayDeploymentStatus::Initializing => UnifiedStatus::Initializing,
        RailwayDeploymentStatus::Building => UnifiedStatus::Building,
        RailwayDeploymentStatus::Deploying => UnifiedStatus::Building,
        RailwayDeploymentStatus::Success => UnifiedStatus::Ready,
        RailwayDeploymentStatus::Failed => UnifiedStatus::Error,
        RailwayDeploymentStatus::Crashed => UnifiedStatus::Error,
        RailwayDeploymentStatus::Removed => UnifiedStatus::Canceled,
        RailwayDeploymentStatus::Removing => UnifiedStatus::Canceled,
        RailwayDeploymentStatus::Sleeping => UnifiedStatus::Ready,
        RailwayDeploymentStatus::Waiting => UnifiedStatus::Queued,
        RailwayDeploymentStatus::Queued => UnifiedStatus::Queued,
        RailwayDeploymentStatus::Skipped => UnifiedStatus::Canceled,
        RailwayDeploymentStatus::Unknown => UnifiedStatus::Unknown,
    }
}

/// A status that means a build or deploy is still under way.
pub open spec fn railway_in_progress(s: RailwayDeploymentStatus) -> bool {
    s == RailwayDeploymentStatus::Building || s == RailwayDeploymentStatus::Deploying
        || s == RailwayDeploymentStatus::Initializing
}

impl RailwayDeploymentStatus {
    /// The unified status of this native status.
    pub fn to_unified(&self) -> (r: UnifiedStatus)
        ensures
            r == railway_unified(*self),
    {
        match self {
            RailwayDeploymentStatus::Initializing => UnifiedStatus::Initializing,
            RailwayDeploymentStatus::Building => UnifiedStatus::Building,
            RailwayDeploymentStatus::Deploying => UnifiedStatus::Building,
            RailwayDeploymentStatus::Success => UnifiedStatus::Ready,
            RailwayDeploymentStatus::Failed => UnifiedStatus::Error,
            RailwayDeploymentStatus::Crashed => UnifiedStatus::Error,
            RailwayDeploymentStatus::Removed => UnifiedStatus::Canceled,
            RailwayDeploymentStatus::Removing => UnifiedStatus::Canceled,
            RailwayDeploymentStatus::Sleeping => UnifiedStatus::Ready,
            RailwayDeploymentStatus::Waiting => UnifiedStatus::Queued,
            RailwayDeploymentStatus::Queued => UnifiedStatus::Queued,
            RailwayDeploymentStatus::Skipped => UnifiedStatus::Canceled,
            RailwayDeploymentStatus::Unknown => UnifiedStatus::Unknown,
        }
    }

    /// Whether a build or deploy is still under way in this status.
    pub fn is_in_progress(&self) -> (r: bool)
        ensures
            r == railway_in_progress(*self),
    {
        match self {
            RailwayDeploymentStatus::Building
            | RailwayDeploymentStatus::Deploying
            | RailwayDeploymentStatus::Initializing => true,
            _ => false,
        }
    }
}

#[derive(Debug, Clone)]
pub struct RailwayDeploymentMeta {
    pub commit_message: Option<String>,
    pub branch: Option<String>,
    pub commit_hash: Option<String>,
}

#[derive(Debug, Clone)]
pub struct RailwayDeployment {
    pub id: String,
    pub static_url: Option<String>,
    pub status: RailwayDeploymentStatus,
    /// An RFC 3339 date-time.
    pub created_at: Option<String>,
    pub updated_at: Option<String>,
    pub meta: Option<RailwayDeploymentMeta>,
    pub project_id: Option<String>,
    pub service_id: Option<String>,
    pub service_name: Option<String>,
    pub environment_id: Option<String>,
}

impl RailwayDeploymentMeta {
    /// A field-by-field copy, equal to `self`.
    pub fn duplicate(&self) -> (r: RailwayDeploymentMeta)
        ensures
            r == *self,
    {
        RailwayDeploymentMeta {
            commit_message: copy_opt(&self.commit_message),
            branch: copy_opt(&self.branch),
            commit_hash: copy_opt(&self.commit_hash),
        }
    }
}

impl RailwayDeployment {
    /// A field-by-field copy, equal to `self`.
    pub fn duplicate(&self) -> (r: RailwayDeployment)
        ensures
            r == *self,
    {
        RailwayDeployment {
            id: self.id.clone(),
            static_url: copy_opt(&self.static_url),
            status: self.status,
            created_at: copy_opt(&self.created_at),
            updated_at: copy_opt(&self.updated_at),
            meta: match &self.meta {
                Some(m) => Some(m.duplicate()),
                None => None,
            },
            project_id: copy_opt(&self.project_id),
            service_id: copy_opt(&self.service_id),
            service_name: copy_opt(&self.service_name),
            environment_id: copy_opt(&self.environment_id),
        }
    }
}

} // verus!
