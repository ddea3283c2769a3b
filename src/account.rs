//! Accounts as the cache holds them and as callers see them.
use vstd::prelude::*;

verus! {

/// The provider an account belongs to when a stored record names none.
pub open spec fn default_provider_name() -> Seq<char> {
    "vercel"@
}

/// The provider name given to records written before accounts carried one.
pub fn default_provider() -> (r: String)
    ensures
        r@ == default_provider_name(),
{
    String::from_str("vercel")
}

/// Copies an optional string; the copy equals its source.
pub fn copy_opt(s: &Option<String>) -> (r: Option<String>)
    ensures
        r == *s,
{
    match s {
        Some(v) => Some(v.clone()),
        None => None,
    }
}

/// One authenticated identity, with its token, as the cache holds it.
#[derive(Debug, Clone)]
pub struct CachedAccount {
    pub id: String,
    pub username: String,
    pub email: String,
    pub name: Option<String>,
    pub scope_type: String,
    pub team_name: Option<String>,
    pub team_slug: Option<String>,
    pub token: String,
    pub provider: String,
}

impl CachedAccount {
    /// A field-by-field copy, equal to `self`.
    pub fn duplicate(&self) -> (r: CachedAccount)
        ensures
            r == *self,
    {
        CachedAccount {
            id: self.id.clone(),
            username: self.username.clone(),
            email: self.email.clone(),
            name: copy_opt(&self.name),
            scope_type: self.scope_type.clone(),
            team_name: copy_opt(&self.team_name),
            team_slug: copy_opt(&self.team_slug),
            token: self.token.clone(),
            provider: self.provider.clone(),
        }
    }
}

/// An account as it is shown to callers: everything but the token.
#[derive(Debug, Clone)]
pub struct Account {
    pub id: String,
    pub username: String,
    pub email: String,
    pub name: Option<String>,
    pub scope_type: String,
    pub team_name: Option<String>,
    pub team_slug: Option<String>,
    pub provider: String,
}

/// The public face of a cached account: the same fields, without the token.
pub open spec fn public_account(c: CachedAccount) -> Account {
    Account {
        id: c.id,
        username: c.username,
        email: c.email,
        name: c.name,
        scope_type: c.scope_type,
        team_name: c.team_name,
        team_slug: c.team_slug,
        provider: c.provider,
    }
}

impl From<CachedAccount> for Account {
    fn from(c: CachedAccount) -> (r: Account) {
        Account {
            id: c.id,
            username: c.username,
            email: c.email,
            name: c.name,
            scope_type: c.scope_type,
            team_name: c.team_name,
            team_slug: c.team_slug,
            provider: c.provider,
        }
    }
}

impl vstd::std_specs::convert::FromSpecImpl<CachedAccount> for Account {
    open spec fn obeys_from_spec() -> bool {
        true
    }

    open spec fn from_spec(c: CachedAccount) -> Account {
        public_account(c)
    }
}

} // verus!
