use vstd::prelude::*;

use crate::json::opt_view;

verus! {

/// Protocol-level failures detected by the client before or instead of a server answer.
#[derive(Debug, Clone, Copy, PartialEq, Eq, Structural)]
pub enum Uma2Error {
    NoUma2Discovered,
    NoPermissionsEndpoint,
    PermissionEndpointMalformed,
    NoPolicyAssociationEndpoint,
    PolicyAssociationEndpointMalformed,
    AudienceFieldRequired,
}

/// The standard OAuth2 error body returned by an authorization server.
#[derive(Debug, Clone)]
pub struct OAuth2Error {
    pub error: String,
    pub error_description: Option<String>,
    pub error_uri: Option<String>,
}

/// Model of an OAuth2 error: code, description and URI.
pub type OAuth2ErrorV = (Seq<char>, Option<Seq<char>>, Option<Seq<char>>);

impl View for OAuth2Error {
    type V = OAuth2ErrorV;

    open spec fn view(&self) -> OAuth2ErrorV {
        (self.error@, opt_view(self.error_description), opt_view(self.error_uri))
    }
}

/// Every way an operation of the client can fail.
#[derive(Debug)]
pub enum ClientError {
    /// A precondition or configuration failure; no request was made.
    Uma2(Uma2Error),
    /// The server answered with an OAuth2 error body.
    OAuth2(OAuth2Error),
    /// The server answered with a body that is neither an error nor the expected result.
    Decode,
}

/// Model of a client error.
pub ghost enum ClientErrorV {
    Uma2(Uma2Error),
    OAuth2(OAuth2ErrorV),
    Decode,
}

impl View for ClientError {
    type V = ClientErrorV;

    open spec fn view(&self) -> ClientErrorV {
        match self {
            ClientError::Uma2(e) => ClientErrorV::Uma2(*e),
            ClientError::OAuth2(e) => ClientErrorV::OAuth2(e@),
            ClientError::Decode => ClientErrorV::Decode,
        }
    }
}

} // verus!
