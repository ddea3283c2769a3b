//! Building a cached account from what a provider says about a new token.
use vstd::prelude::*;
use crate::account::{copy_opt, CachedAccount};
use crate::state::opt_view;
use crate::vercel::{Team, TokenInfo, User};

verus! {

/// The lowercase hexadecimal MD5 digest of a text's UTF-8 bytes.
pub uninterp spec fn md5_hex(s: Seq<char>) -> Seq<char>;

/// Relies on `md5::compute`, printed with `{:x}`: the digest of the
/// token's bytes as 32 lowercase hex digits, two per digest byte.
#[verifier::external_body]
fn md5_hex_of(token: &str) -> (r: String)
    ensures
        r@ == md5_hex(token@),
        r@.len() == 32,
{
    format!("{:x}", md5::compute(token))
}

/// The token belongs to a team: its info was read and names a team.
pub open spec fn team_scoped(info: Option<TokenInfo>) -> bool {
    match info {
        Some(i) => i.team_id is Some,
        None => false,
    }
}

/// The team to look up for a token, if its info names one.
pub fn team_to_look_up(info: &Option<TokenInfo>) -> (r: Option<String>)
    ensures
        r == match *info {
            Some(i) => i.team_id,
            None => None,
        },
{
    match info {
        Some(i) => copy_opt(&i.team_id),
        None => None,
    }
}

/// The account for a token of the first provider, given the user it
/// belongs to, its token info (if that could be read) and its team (if
/// that could be read). The scope is "team" when the info names a team,
/// else "user"; team fields come from the team, for team tokens only.
pub fn vercel_account(token: String, user: &User, info: &Option<TokenInfo>, team: &Option<Team>) -> (r: CachedAccount)
    ensures
        r.id == user.id,
        r.username == user.username,
        r.email == user.email,
        r.name == user.name,
        r.token == token,
        r.provider@ == "vercel"@,
        r.scope_type@ == (if team_scoped(*info) { "team"@ } else { "user"@ }),
        r.team_name == (if team_scoped(*info) && team is Some { Some(team->Some_0.name) } else { None }),
        r.team_slug == (if team_scoped(*info) && team is Some { Some(team->Some_0.slug) } else { None }),
{
    let scoped = match info {
        Some(i) => i.team_id.is_some(),
        None => false,
    };
    let (scope_type, team_name, team_slug) = if scoped {
        match team {
            Some(t) => (String::from_str("team"), Some(t.name.clone()), Some(t.slug.clone())),
            None => (String::from_str("team"), None, None),
        }
    } else {
        (String::from_str("user"), None, None)
    };
    CachedAccount {
        id: user.id.clone(),
        username: user.username.clone(),
        email: user.email.clone(),
        name: copy_opt(&user.name),
        scope_type,
        team_name,
        team_slug,
        token,
        provider: String::from_str("vercel"),
    }
}

/// The id prefix of an account of the second provider.
pub open spec fn railway_id_prefix(workspace: bool) -> Seq<char> {
    if workspace {
        "railway_ws_"@
    } else {
        "railway_proj_"@
    }
}

/// The display name of an account of the second provider: the workspace or
/// project name if one was found, else a generic one.
pub open spec fn railway_display(workspace: bool, label: Option<String>) -> Seq<char> {
    match label {
        Some(l) => l@,
        None => if workspace {
            "Railway Workspace"@
        } else {
            "Railway Project"@
        },
    }
}

/// The id of an account of the second provider: a prefix for its token
/// kind, then the first 8 digits of its token's hash.
pub fn railway_account_id(workspace: bool, token_hash: &String) -> (r: String)
    requires
        token_hash@.len() >= 8,
    ensures
        r@ == railway_id_prefix(workspace) + token_hash@.take(8),
{
    let mut id = if workspace {
        String::from_str("railway_ws_")
    } else {
        String::from_str("railway_proj_")
    };
    id.append(token_hash.as_str().substring_char(0, 8));
    proof {
        assert(token_hash@.subrange(0, 8) == token_hash@.take(8));
    }
    id
}

/// The account for a token of the second provider whose hash is
/// `token_hash`. A `token_type` of "workspace" makes a workspace account;
/// any other makes a project account. `label` is the workspace or project
/// name, if one was found.
pub fn railway_account(token: String, token_type: &str, label: Option<String>, token_hash: &String) -> (r: CachedAccount)
    requires
        token_hash@.len() >= 8,
    ensures
        ({
            let ws = token_type@ == "workspace"@;
            &&& r.id@ == railway_id_prefix(ws) + token_hash@.take(8)
            &&& r.username@ == railway_display(ws, label)
            &&& opt_view(r.name) == Some(railway_display(ws, label))
            &&& r.email@ == (if ws { "workspace@railway.app"@ } else { "project@railway.app"@ })
            &&& r.scope_type@ == (if ws { "workspace"@ } else { "project"@ })
            &&& r.team_name == label
            &&& r.team_slug is None
            &&& r.token == token
            &&& r.provider@ == "railway"@
        }),
{
    let workspace = String::from_str(token_type) == String::from_str("workspace");
    let display = match &label {
        Some(l) => l.clone(),
        None => if workspace {
            String::from_str("Railway Workspace")
        } else {
            String::from_str("Railway Project")
        },
    };
    let (email, scope_type) = if workspace {
        (String::from_str("workspace@railway.app"), String::from_str("workspace"))
    } else {
        (String::from_str("project@railway.app"), String::from_str("project"))
    };
    CachedAccount {
        id: railway_account_id(workspace, token_hash),
        username: display.clone(),
        email,
        name: Some(display),
        scope_type,
        team_name: label,
        team_slug: None,
        token,
        provider: String::from_str("railway"),
    }
}

/// The account for a token of the second provider, its id taken from the
/// MD5 digest of the token.
pub fn new_railway_account(token: String, token_type: &str, label: Option<String>) -> (r: CachedAccount)
    ensures
        ({
            let ws = token_type@ == "workspace"@;
            &&& r.id@ == railway_id_prefix(ws) + md5_hex(token@).take(8)
            &&& r.username@ == railway_display(ws, label)
            &&& opt_view(r.name) == Some(railway_display(ws, label))
            &&& r.email@ == (if ws { "workspace@railway.app"@ } else { "project@railway.app"@ })
            &&& r.scope_type@ == (if ws { "workspace"@ } else { "project"@ })
            &&& r.team_name == label
            &&& r.team_slug is None
            &&& r.token == token
            &&& r.provider@ == "railway"@
        }),
{
    let hash = md5_hex_of(token.as_str());
    railway_account(token, token_type, label, &hash)
}

} // verus!
