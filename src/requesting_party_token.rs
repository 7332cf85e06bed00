use vstd::prelude::*;

verus! {

/// The standard claims of a token: issuer, subject, audience and times.
#[derive(Debug, Clone)]
pub struct StandardClaims {
    pub iss: String,
    pub sub: String,
    pub aud: Vec<String>,
    pub exp: i64,
    pub iat: i64,
    pub auth_time: Option<i64>,
    pub nonce: Option<String>,
    pub azp: Option<String>,
}

/// One resource granted by a requesting party token.
#[derive(Debug, Clone)]
pub struct RequestingPartyTokenAuthorizationPermission {
    pub resource_set_id: String,
    pub resource_set_name: String,
}

/// The permissions granted by a requesting party token, in order.
#[derive(Debug, Clone)]
pub struct RequestingPartyTokenAuthorization {
    pub permissions: Vec<RequestingPartyTokenAuthorizationPermission>,
}

/// The claim set of a requesting party token.
#[derive(Debug, Clone)]
pub struct RequestingPartyToken {
    pub authorization: RequestingPartyTokenAuthorization,
    pub standard_claims: StandardClaims,
}

impl RequestingPartyToken {
    /// The standard claims that this claim set extends.
    pub fn standard_claims(&self) -> (r: &StandardClaims)
        ensures
            *r == self.standard_claims,
    {
        &self.standard_claims
    }
}

} // verus!
