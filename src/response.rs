use vstd::prelude::*;

use crate::error::{ClientError, ClientErrorV, OAuth2Error, OAuth2ErrorV};
use crate::json::{optional_string, read_optional_string, read_required_string, required_string, Json, JsonV};
use crate::permission::{associations_of, associations_view, decode_associations, AssociationV, Uma2PermissionAssociation};

verus! {

/// The OAuth2 error that a response body carries, if it has the error shape:
/// an object with a string `error` and, when present, string `error_description`
/// and `error_uri`.
pub open spec fn oauth2_error_of(j: JsonV) -> Option<OAuth2ErrorV> {
    match j {
        JsonV::Object(es) => match (
            required_string(es, "error"@),
            optional_string(es, "error_description"@),
            optional_string(es, "error_uri"@),
        ) {
            (Some(e), Some(d), Some(u)) => Some((e, d, u)),
            _ => None,
        },
        _ => None,
    }
}

/// The access token of a bearer-token response body, if it has that shape.
pub open spec fn bearer_token_of(j: JsonV) -> Option<Seq<char>> {
    match j {
        JsonV::Object(es) => if optional_string(es, "token_type"@) is Some && optional_string(es, "scope"@) is Some
            && optional_string(es, "refresh_token"@) is Some && optional_string(es, "id_token"@) is Some {
            required_string(es, "access_token"@)
        } else {
            None
        },
        _ => None,
    }
}

/// Outcome of an operation whose success carries nothing.
pub open spec fn unit_outcome(j: JsonV) -> Result<(), ClientErrorV> {
    match oauth2_error_of(j) {
        Some(e) => Err(ClientErrorV::OAuth2(e)),
        None => Ok(()),
    }
}

/// Outcome of the token exchange.
pub open spec fn token_outcome(j: JsonV) -> Result<Seq<char>, ClientErrorV> {
    match oauth2_error_of(j) {
        Some(e) => Err(ClientErrorV::OAuth2(e)),
        None => match bearer_token_of(j) {
            Some(t) => Ok(t),
            None => Err(ClientErrorV::Decode),
        },
    }
}

/// Outcome of a permission search.
pub open spec fn search_outcome(j: JsonV) -> Result<Seq<AssociationV>, ClientErrorV> {
    match oauth2_error_of(j) {
        Some(e) => Err(ClientErrorV::OAuth2(e)),
        None => match associations_of(j) {
            Some(l) => Ok(l),
            None => Err(ClientErrorV::Decode),
        },
    }
}

/// Outcome of an operation whose success body is handed back as it came.
pub open spec fn passthrough_outcome(j: JsonV) -> Result<JsonV, ClientErrorV> {
    match oauth2_error_of(j) {
        Some(e) => Err(ClientErrorV::OAuth2(e)),
        None => Ok(j),
    }
}

/// A body with the OAuth2 error shape fails every kind of operation with that same
/// upstream error; a body without it gives each kind of operation its decoded result.
pub proof fn lemma_classification_is_uniform(j: JsonV)
    ensures
        oauth2_error_of(j) matches Some(e) ==> {
            &&& unit_outcome(j) == Err::<(), ClientErrorV>(ClientErrorV::OAuth2(e))
            &&& token_outcome(j) == Err::<Seq<char>, ClientErrorV>(ClientErrorV::OAuth2(e))
            &&& search_outcome(j) == Err::<Seq<AssociationV>, ClientErrorV>(ClientErrorV::OAuth2(e))
            &&& passthrough_outcome(j) == Err::<JsonV, ClientErrorV>(ClientErrorV::OAuth2(e))
        },
        oauth2_error_of(j) is None ==> {
            &&& unit_outcome(j) == Ok::<(), ClientErrorV>(())
            &&& (bearer_token_of(j) matches Some(t) ==> token_outcome(j) == Ok::<Seq<char>, ClientErrorV>(t))
            &&& (associations_of(j) matches Some(l) ==> search_outcome(j) == Ok::<Seq<AssociationV>, ClientErrorV>(l))
            &&& passthrough_outcome(j) == Ok::<JsonV, ClientErrorV>(j)
        },
{
}

pub open spec fn error_view<T>(r: Result<T, ClientError>) -> ClientErrorV
    recommends
        r is Err,
{
    r->Err_0@
}

/// Reads a response body as an OAuth2 error; `None` when it does not have that shape.
pub fn probe_oauth2_error(j: &Json) -> (r: Option<OAuth2Error>)
    ensures
        match r {
            Some(e) => oauth2_error_of(j@) == Some(e@),
            None => oauth2_error_of(j@) is None,
        },
{
    match j {
        Json::Object(_) => {},
        _ => {
            return None;
        },
    }
    let error = read_required_string(j, &String::from_str("error"));
    let description = read_optional_string(j, &String::from_str("error_description"));
    let uri = read_optional_string(j, &String::from_str("error_uri"));
    match (error, description, uri) {
        (Some(error), Some(error_description), Some(error_uri)) => Some(
            OAuth2Error { error, error_description, error_uri },
        ),
        _ => None,
    }
}

/// Classifies the response of an operation whose success carries nothing.
pub fn unit_response(j: &Json) -> (r: Result<(), ClientError>)
    ensures
        match unit_outcome(j@) {
            Ok(_) => r is Ok,
            Err(e) => r is Err && error_view(r) == e,
        },
{
    match probe_oauth2_error(j) {
        Some(e) => Err(ClientError::OAuth2(e)),
        None => Ok(()),
    }
}

/// Classifies the response of the token exchange and extracts the access token.
pub fn token_response(j: &Json) -> (r: Result<String, ClientError>)
    ensures
        match token_outcome(j@) {
            Ok(t) => r is Ok && r->Ok_0@ == t,
            Err(e) => r is Err && error_view(r) == e,
        },
{
    if let Some(e) = probe_oauth2_error(j) {
        return Err(ClientError::OAuth2(e));
    }
    match j {
        Json::Object(_) => {},
        _ => {
            return Err(ClientError::Decode);
        },
    }
    let token_type = read_optional_string(j, &String::from_str("token_type"));
    let scope = read_optional_string(j, &String::from_str("scope"));
    let refresh = read_optional_string(j, &String::from_str("refresh_token"));
    let id_token = read_optional_string(j, &String::from_str("id_token"));
    if token_type.is_none() || scope.is_none() || refresh.is_none() || id_token.is_none() {
        return Err(ClientError::Decode);
    }
    match read_required_string(j, &String::from_str("access_token")) {
        Some(t) => Ok(t),
        None => Err(ClientError::Decode),
    }
}

/// Classifies the response of a permission search and decodes the listed associations.
pub fn search_response(j: &Json) -> (r: Result<Vec<Uma2PermissionAssociation>, ClientError>)
    ensures
        match search_outcome(j@) {
            Ok(l) => r is Ok && associations_view(r->Ok_0@) == l,
            Err(e) => r is Err && error_view(r) == e,
        },
{
    if let Some(e) = probe_oauth2_error(j) {
        return Err(ClientError::OAuth2(e));
    }
    match decode_associations(j) {
        Some(l) => Ok(l),
        None => Err(ClientError::Decode),
    }
}

/// Classifies a response whose success body is handed back unchanged.
pub fn passthrough_response(j: Json) -> (r: Result<Json, ClientError>)
    ensures
        match passthrough_outcome(j@) {
            Ok(v) => r is Ok && r->Ok_0@ == v,
            Err(e) => r is Err && error_view(r) == e,
        },
{
    match probe_oauth2_error(&j) {
        Some(e) => Err(ClientError::OAuth2(e)),
        None => Ok(j),
    }
}

} // verus!
