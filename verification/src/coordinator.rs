use vstd::prelude::*;
use vstd::string::{StringExecFns, StringExecFnsIsAscii};

use crate::urlenc::percent_encode;
use crate::urlenc::percent_encoding;

verus! {

/// Alphabet of URL-safe base64 without padding: the form of the minted CSRF
/// tokens and nonces. No character of it needs percent-encoding in a query.
pub open spec fn is_base64url_char(c: char) -> bool {
    ||| 'A' <= c && c <= 'Z'
    ||| 'a' <= c && c <= 'z'
    ||| '0' <= c && c <= '9'
    ||| c == '-'
    ||| c == '_'
}

/// A freshly minted login token: 128 random bits, base64url-encoded.
pub open spec fn is_login_token(s: Seq<char>) -> bool {
    &&& s.len() == 22
    &&& forall|i: int| 0 <= i < s.len() ==> is_base64url_char(#[trigger] s[i])
}

/// Relies on openidconnect::CsrfToken::new_random (oauth2's `CsrfToken`):
/// 16 random bytes, base64url-encoded without padding, hence 22 characters
/// of that alphabet. Nothing is promised about the randomness itself.
#[verifier::external_body]
fn mint_csrf_token() -> (r: String)
    ensures
        is_login_token(r@),
{
    openidconnect::CsrfToken::new_random().secret().clone()
}

/// Relies on openidconnect::Nonce::new_random: 16 random bytes, base64url-
/// encoded without padding, hence 22 characters of that alphabet.
#[verifier::external_body]
fn mint_nonce() -> (r: String)
    ensures
        is_login_token(r@),
{
    openidconnect::Nonce::new_random().secret().clone()
}

/// The single component that knows how to start a login and how to judge the
/// outcome of the code-for-token exchange. It exclusively owns the provider
/// configuration; callers hold it under mutual exclusion (`&mut`).
pub struct LoginManager {
    pub authorize_endpoint: String,
    pub client_id: String,
    pub redirect_uri: String,
    pub scope: String,
}

/// The authorization request URL for one login attempt: the provider's
/// authorization endpoint with the client configuration and the fresh state
/// and nonce in the query.
pub open spec fn authorization_url(m: LoginManager, state: Seq<char>, nonce: Seq<char>) -> Seq<
    char,
> {
    m.authorize_endpoint@ + "?response_type=code&client_id="@ + percent_encoding(m.client_id@)
        + "&redirect_uri="@ + percent_encoding(m.redirect_uri@) + "&scope="@ + percent_encoding(
        m.scope@,
    ) + "&state="@ + state + "&nonce="@ + nonce
}

impl LoginManager {
    /// The configuration is usable: plain ASCII, so that the query can be
    /// assembled with percent-encoding of each component.
    pub open spec fn wf(self) -> bool {
        &&& vstd::string::string_is_ascii(&self.authorize_endpoint)
        &&& vstd::string::string_is_ascii(&self.client_id)
        &&& vstd::string::string_is_ascii(&self.redirect_uri)
        &&& vstd::string::string_is_ascii(&self.scope)
    }

    /// Accept the provider configuration, or refuse it at startup: a
    /// misconfigured provider is fatal before any request is served.
    pub fn new(authorize_endpoint: String, client_id: String, redirect_uri: String, scope: String)
        -> (r: Option<LoginManager>)
        ensures
            r matches Some(m) ==> m.wf() && m == (LoginManager {
                authorize_endpoint,
                client_id,
                redirect_uri,
                scope,
            }),
            r is None ==> !(LoginManager { authorize_endpoint, client_id, redirect_uri, scope }).wf(),
    {
        if authorize_endpoint.is_ascii() && client_id.is_ascii() && redirect_uri.is_ascii()
            && scope.is_ascii() {
            Some(LoginManager { authorize_endpoint, client_id, redirect_uri, scope })
        } else {
            None
        }
    }

    /// Mint a fresh (url, csrf_token, nonce) triple for one login attempt.
    /// Always succeeds; no network call is involved.
    pub fn login(&mut self) -> (r: (String, String, String))
        requires
            old(self).wf(),
        ensures
            *final(self) == *old(self),
            is_login_token(r.1@),
            is_login_token(r.2@),
            r.0@ == authorization_url(*old(self), r.1@, r.2@),
    {
        let csrf_token = mint_csrf_token();
        let nonce = mint_nonce();
        let mut url = self.authorize_endpoint.clone();
        url.append("?response_type=code&client_id=");
        let enc_client_id = percent_encode(self.client_id.as_str());
        url.append(enc_client_id.as_str());
        url.append("&redirect_uri=");
        let enc_redirect_uri = percent_encode(self.redirect_uri.as_str());
        url.append(enc_redirect_uri.as_str());
        url.append("&scope=");
        let enc_scope = percent_encode(self.scope.as_str());
        url.append(enc_scope.as_str());
        url.append("&state=");
        url.append(csrf_token.as_str());
        url.append("&nonce=");
        url.append(nonce.as_str());
        proof {
            assert(url@ =~= authorization_url(*self, csrf_token@, nonce@));
        }
        (url, csrf_token, nonce)
    }
}

/// Why a code-for-token exchange is denied. Every variant is an operational
/// failure for the caller: authentication is denied as a whole.
#[derive(Clone, Copy, Debug, PartialEq, Eq)]
pub enum ExchangeError {
    /// The network exchange with the provider failed.
    Network,
    /// The identity token's signature or issuer did not validate.
    Verification,
    /// The nonce echoed in the identity token is not the one this process issued.
    NonceMismatch,
    /// The user directory could not resolve the subject to a local user.
    UserDirectory,
}

/// What the provider's signature-checked identity token asserts, as far as
/// this core consumes it: the subject identifier and the echoed nonce.
pub struct IdentityClaims {
    pub subject: String,
    pub nonce: String,
}

/// Replay and token-substitution defense: the nonce echoed inside the
/// provider's identity assertion must be exactly the one issued for this
/// attempt; only then is the subject accepted.
pub fn verify_exchange_claims(claims: IdentityClaims, expected_nonce: &String) -> (r: Result<
    String,
    ExchangeError,
>)
    ensures
        claims.nonce@ == expected_nonce@ ==> r == Ok::<String, ExchangeError>(claims.subject),
        claims.nonce@ != expected_nonce@ ==> r == Err::<String, ExchangeError>(ExchangeError::NonceMismatch),
{
    if claims.nonce == *expected_nonce {
        Ok(claims.subject)
    } else {
        Err(ExchangeError::NonceMismatch)
    }
}

/// Fold the user directory's answer into the exchange outcome: an unknown
/// subject denies the whole exchange.
pub fn user_directory_outcome(lookup: Option<String>) -> (r: Result<String, ExchangeError>)
    ensures
        lookup matches Some(uid) ==> r == Ok::<String, ExchangeError>(uid),
        lookup is None ==> r == Err::<String, ExchangeError>(ExchangeError::UserDirectory),
{
    match lookup {
        Some(uid) => Ok(uid),
        None => Err(ExchangeError::UserDirectory),
    }
}

} // verus!
