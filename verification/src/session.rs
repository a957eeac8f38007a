use vstd::prelude::*;

verus! {

/// Model of the per-visitor session store that survives the redirect round
/// trip to the identity provider. During a login attempt it holds exactly two
/// entries, the CSRF token and the nonce; it can be cleared as a whole.
pub struct SessionStore {
    pub csrf_token: Option<String>,
    pub nonce: Option<String>,
}

impl SessionStore {
    /// No login attempt is in flight.
    pub open spec fn is_empty(self) -> bool {
        self.csrf_token is None && self.nonce is None
    }

    pub fn new() -> (r: SessionStore)
        ensures
            r.is_empty(),
    {
        SessionStore { csrf_token: None, nonce: None }
    }

    pub fn insert_csrf_token(&mut self, value: String)
        ensures
            final(self).csrf_token == Some(value),
            final(self).nonce == old(self).nonce,
    {
        self.csrf_token = Some(value);
    }

    pub fn insert_nonce(&mut self, value: String)
        ensures
            final(self).nonce == Some(value),
            final(self).csrf_token == old(self).csrf_token,
    {
        self.nonce = Some(value);
    }

    pub fn clear(&mut self)
        ensures
            final(self).is_empty(),
    {
        self.csrf_token = None;
        self.nonce = None;
    }

    /// Read both login entries and clear the store in one step: a callback,
    /// valid or not, consumes the attempt.
    pub fn take_login_attempt(&mut self) -> (r: (Option<String>, Option<String>))
        ensures
            final(self).is_empty(),
            r.0 == old(self).csrf_token,
            r.1 == old(self).nonce,
    {
        let csrf_token = self.csrf_token.take();
        let nonce = self.nonce.take();
        (csrf_token, nonce)
    }
}

} // verus!
