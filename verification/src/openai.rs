//! The credential and the client configuration built around it.

use vstd::prelude::*;

verus! {

/// Mathematical content of an `Option<String>`.
pub open spec fn text_of(text: Option<String>) -> Option<Seq<char>> {
    match text {
        Some(t) => Some(t@),
        None => None,
    }
}

/// What a credential holds, as sequences of characters.
pub struct AuthView {
    pub api_key: Seq<char>,
    pub organization: Option<Seq<char>>,
}

/// API key and optional organization identifier. Read-only once built.
#[derive(Debug)]
pub struct Auth {
    api_key: String,
    organization: Option<String>,
}

impl View for Auth {
    type V = AuthView;

    closed spec fn view(&self) -> AuthView {
        AuthView { api_key: self.api_key@, organization: text_of(self.organization) }
    }
}

impl Auth {
    /// The key is never empty.
    #[verifier::type_invariant]
    spec fn keyed(self) -> bool {
        self.api_key@.len() > 0
    }

    /// Builds a credential; an empty key is refused.
    pub fn new(api_key: String, organization: Option<String>) -> (r: Option<Auth>)
        ensures
            r is None <==> api_key@.len() == 0,
            r is Some ==> r.unwrap()@ == (AuthView {
                api_key: api_key@,
                organization: text_of(organization),
            }),
    {
        if api_key.as_str().is_empty() {
            None
        } else {
            Some(Auth { api_key, organization })
        }
    }

    pub fn api_key(&self) -> (r: &str)
        ensures
            r@ == self@.api_key,
            r@.len() > 0,
    {
        proof {
            use_type_invariant(self);
        }
        self.api_key.as_str()
    }

    pub fn organization(&self) -> (r: Option<&str>)
        ensures
            r is Some <==> self@.organization is Some,
            r is Some ==> r.unwrap()@ == self@.organization.unwrap(),
    {
        match &self.organization {
            Some(o) => Some(o.as_str()),
            None => None,
        }
    }

    /// The organization as it is sent: the identifier, or nothing at all.
    pub fn organization_or_empty(&self) -> (r: String)
        ensures
            r@ == sent_organization(self@),
    {
        match &self.organization {
            Some(o) => o.clone(),
            None => String::new(),
        }
    }
}

/// The value of the organization header for a credential.
pub open spec fn sent_organization(auth: AuthView) -> Seq<char> {
    match auth.organization {
        Some(o) => o,
        None => Seq::empty(),
    }
}

/// What a client configuration holds.
pub struct OpenAIView {
    pub auth: AuthView,
    pub api_url: Seq<char>,
}

/// Client configuration: the credential and the base URL of the service.
#[derive(Debug)]
pub struct OpenAI {
    auth: Auth,
    api_url: String,
}

impl View for OpenAI {
    type V = OpenAIView;

    closed spec fn view(&self) -> OpenAIView {
        OpenAIView { auth: self.auth@, api_url: self.api_url@ }
    }
}

impl OpenAI {
    pub fn new(auth: Auth, api_url: String) -> (r: OpenAI)
        ensures
            r@ == (OpenAIView { auth: auth@, api_url: api_url@ }),
    {
        OpenAI { auth, api_url }
    }

    pub fn auth(&self) -> (r: &Auth)
        ensures
            r@ == self@.auth,
    {
        &self.auth
    }

    pub fn api_url(&self) -> (r: &str)
        ensures
            r@ == self@.api_url,
    {
        self.api_url.as_str()
    }
}

} // verus!
