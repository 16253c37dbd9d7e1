//! Credentials for HTTP basic authentication.

use crate::config::Config;
use crate::error::Error;
use crate::request::ApiRequest;
use vstd::prelude::*;
use vstd::string::*;

verus! {

/// The base64 text, standard alphabet with padding, of a text's UTF-8 bytes.
pub uninterp spec fn base64_standard(text: Seq<char>) -> Seq<char>;

/// The credentials of HTTP basic authentication: the base64 text of the user's
/// name, a colon and the token.
pub open spec fn basic_credentials(username: Seq<char>, api_token: Seq<char>) -> Seq<char> {
    base64_standard(username + ":"@ + api_token)
}

/// The value of the `Authorization` header for the given credentials.
pub open spec fn authorization(credentials: Seq<char>) -> Seq<char> {
    "Basic "@ + credentials
}

/// `Engine::encode` of base64's general-purpose engine with the standard
/// alphabet and the default configuration, on the bytes of `text`. The encoder
/// fails only on a length in the top quarter of `usize`, which no string has.
#[verifier::external_body]
fn encode_base64(text: &str) -> (encoded: String)
    ensures
        encoded@ == base64_standard(text@),
{
    let engine = base64::engine::GeneralPurpose::new(
        &base64::alphabet::STANDARD,
        base64::engine::GeneralPurposeConfig::default(),
    );
    base64::Engine::encode(&engine, text)
}

/// A user's name and API token, and the credentials computed from them once
/// they have been asked for.
pub struct Auth {
    username: String,
    api_token: String,
    cached_basic_auth: Option<String>,
}

impl Auth {
    #[verifier::type_invariant]
    spec fn cache_is_current(&self) -> bool {
        match self.cached_basic_auth {
            Some(cached) => cached@ == basic_credentials(self.username@, self.api_token@),
            None => true,
        }
    }

    /// The user's name.
    pub closed spec fn username(&self) -> Seq<char> {
        self.username@
    }

    /// The API token.
    pub closed spec fn api_token(&self) -> Seq<char> {
        self.api_token@
    }

    /// Whether the credentials have been computed.
    pub closed spec fn is_cached(&self) -> bool {
        self.cached_basic_auth is Some
    }

    /// The credentials that belong to the name and the token.
    pub open spec fn basic_auth(&self) -> Seq<char> {
        basic_credentials(self.username(), self.api_token())
    }

    /// Credentials for `username` with `api_token`, not yet computed.
    pub fn new(username: &str, api_token: &str) -> (auth: Auth)
        ensures
            auth.username() == username@,
            auth.api_token() == api_token@,
            !auth.is_cached(),
    {
        Auth {
            username: username.to_owned(),
            api_token: api_token.to_owned(),
            cached_basic_auth: None,
        }
    }

    /// Prepares the credentials. Basic authentication needs no exchange with
    /// the server, so this always succeeds.
    pub fn login(&mut self, _config: &Config) -> (res: Result<(), Error>)
        ensures
            res is Ok,
            final(self).is_cached(),
            final(self).username() == old(self).username(),
            final(self).api_token() == old(self).api_token(),
    {
        self.ensure_cached_basic_auth();
        Ok(())
    }

    fn ensure_cached_basic_auth(&mut self)
        ensures
            final(self).is_cached(),
            final(self).username() == old(self).username(),
            final(self).api_token() == old(self).api_token(),
    {
        if self.cached_basic_auth.is_none() {
            let mut plain = self.username.clone();
            plain.append(":");
            plain.append(self.api_token.as_str());
            let basic_auth = encode_base64(plain.as_str());
            self.cached_basic_auth = Some(basic_auth);
        }
    }

    /// The credentials, computed at the first call and kept for the later ones.
    pub fn get_basic_auth(&mut self) -> (credentials: String)
        ensures
            credentials@ == old(self).basic_auth(),
            final(self).is_cached(),
            final(self).username() == old(self).username(),
            final(self).api_token() == old(self).api_token(),
    {
        self.ensure_cached_basic_auth();
        proof {
            use_type_invariant(&*self);
        }
        match &self.cached_basic_auth {
            Some(cached) => cached.clone(),
            None => String::new(),
        }
    }

    /// The request with the `Authorization` header set to these credentials.
    pub fn auth(&mut self, request: ApiRequest) -> (authorized: ApiRequest)
        ensures
            authorized.spec_method() == request.spec_method(),
            authorized.spec_url() == request.spec_url(),
            authorized.spec_headers() == request.spec_headers().insert(
                "Authorization"@,
                authorization(old(self).basic_auth()),
            ),
            final(self).is_cached(),
            final(self).username() == old(self).username(),
            final(self).api_token() == old(self).api_token(),
    {
        let mut value = String::new();
        value.append("Basic ");
        let credentials = self.get_basic_auth();
        value.append(credentials.as_str());
        assert(value@ =~= authorization(old(self).basic_auth()));
        request.set("Authorization", value.as_str())
    }
}

} // verus!
