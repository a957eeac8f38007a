use vstd::prelude::*;

use crate::http::{is_unauthorized, HttpReply};

verus! {

/// Model of the identity cookie: the server-trusted assertion that the
/// visitor is authenticated as a given local user. The core only requests
/// "remember this user id" and "forget" transitions; the cryptographic
/// encoding of the cookie belongs to the HTTP layer.
pub struct Identity {
    pub user: Option<String>,
}

impl Identity {
    pub fn anonymous() -> (r: Identity)
        ensures
            r.user is None,
    {
        Identity { user: None }
    }

    /// Clear the identity assertion.
    pub fn forget(&mut self)
        ensures
            final(self).user is None,
    {
        self.user = None;
    }

    /// Bind the identity assertion to a local user id.
    pub fn remember(&mut self, uid: String)
        ensures
            final(self).user == Some(uid),
    {
        self.user = Some(uid);
    }

    /// The currently asserted user id, if any.
    pub fn identity(&self) -> (r: Option<String>)
        ensures
            r.deep_view() == self.user.deep_view(),
    {
        match &self.user {
            Some(u) => Some(u.clone()),
            None => None,
        }
    }

    /// What every identity-bound endpoint asks first: the asserted user id,
    /// or the "unauthorized" answer for an anonymous visitor.
    pub fn authenticated_user(&self) -> (r: Result<String, HttpReply>)
        ensures
            self.user matches Some(u) ==> (r matches Ok(v) && v@ == u@),
            self.user is None ==> (r matches Err(rep) && is_unauthorized(rep)),
    {
        match &self.user {
            Some(u) => Ok(u.clone()),
            None => Err(HttpReply::unauthorized()),
        }
    }
}

} // verus!
