use vstd::prelude::*;

use crate::error::{ClientError, ClientErrorV, Uma2Error};
use crate::json::{
    object, opt_json_view, opt_strings_view, opt_view, optional_entry, optional_strings_json,
    push_entry, strings_of, Json, JsonV,
};
use crate::permission::{
    association_json, opt_str_json, opt_strings_json, AssociationV, Uma2PermissionAssociation,
    Uma2PermissionDecisionStrategy, Uma2PermissionLogic,
};
use crate::request::{
    basic, basic_header, bearer, bearer_header, json_request, make_json_request, BodyV, HttpMethod,
    RequestBody, RequestV, Uma2Request,
};
use crate::text::{bool_string, bool_text, decimal, decimal_string};
use crate::wire::{
    append_path_segment, append_query_pairs, form_encode, form_urlencoded_of, pairs_view,
    url_with_query, url_with_segment, pairs_bounded, MAX_URL_PART,
};

verus! {

/// How credentials are presented to the token endpoint during the ticket exchange.
#[derive(Debug, Clone, Copy, PartialEq, Eq, Structural)]
pub enum Uma2AuthenticationMethod {
    Bearer,
    Basic,
}

/// The format of a claim token passed to the ticket exchange.
#[derive(Debug, Clone, Copy, PartialEq, Eq, Structural)]
pub enum Uma2ClaimTokenFormat {
    /// `urn:ietf:params:oauth:token-type:jwt`
    Jwt,
    /// `https://openid.net/specs/openid-connect-core-1_0.html#IDToken`
    IdToken,
}

pub open spec fn claim_token_format_text(f: Uma2ClaimTokenFormat) -> Seq<char> {
    match f {
        Uma2ClaimTokenFormat::Jwt => "urn:ietf:params:oauth:token-type:jwt"@,
        Uma2ClaimTokenFormat::IdToken => "https://openid.net/specs/openid-connect-core-1_0.html#IDToken"@,
    }
}

impl Uma2ClaimTokenFormat {
    /// The identifier of the format on the wire.
    pub fn to_text(&self) -> (r: String)
        ensures
            r@ == claim_token_format_text(*self),
    {
        match self {
            Uma2ClaimTokenFormat::Jwt => String::from_str("urn:ietf:params:oauth:token-type:jwt"),
            Uma2ClaimTokenFormat::IdToken => String::from_str(
                "https://openid.net/specs/openid-connect-core-1_0.html#IDToken",
            ),
        }
    }
}

/// The UMA2 endpoints found by discovery. Populated once, read by every operation.
#[derive(Debug, Clone)]
pub struct Uma2Endpoints {
    pub discovered: bool,
    pub permission_endpoint: Option<String>,
    pub policy_endpoint: Option<String>,
    pub token_endpoint: String,
}

impl Uma2Endpoints {
    /// Every endpoint is short enough to be extended into a URL.
    pub open spec fn within_limits(&self) -> bool {
        &&& self.token_endpoint@.len() <= MAX_URL_PART
        &&& self.permission_endpoint matches Some(u) ==> u@.len() <= MAX_URL_PART
        &&& self.policy_endpoint matches Some(u) ==> u@.len() <= MAX_URL_PART
    }

    pub fn uma2_discovered(&self) -> (r: bool)
        ensures
            r == self.discovered,
    {
        self.discovered
    }

    pub fn permission_uri(&self) -> (r: Option<&String>)
        ensures
            r matches Some(u) ==> self.permission_endpoint == Some(*u),
            r is None <==> self.permission_endpoint is None,
    {
        match &self.permission_endpoint {
            Some(u) => Some(u),
            None => None,
        }
    }

    pub fn uma_policy_uri(&self) -> (r: Option<&String>)
        ensures
            r matches Some(u) ==> self.policy_endpoint == Some(*u),
            r is None <==> self.policy_endpoint is None,
    {
        match &self.policy_endpoint {
            Some(u) => Some(u),
            None => None,
        }
    }

    pub fn token_uri(&self) -> (r: &String)
        ensures
            *r == self.token_endpoint,
    {
        &self.token_endpoint
    }
}

/// The body of a grant of a resource to a requesting user.
#[derive(Debug, Clone)]
pub struct Uma2GrantPermissionToUserRequest {
    pub resource: String,
    pub requester: String,
    pub granted: bool,
    pub scope_name: Option<String>,
}

pub open spec fn grant_json(resource: Seq<char>, requester: Seq<char>, granted: bool, scope_name: Option<Seq<char>>) -> JsonV {
    JsonV::Object(
        optional_entry("resource"@, Some(JsonV::Str(resource)))
            + optional_entry("requester"@, Some(JsonV::Str(requester)))
            + optional_entry("granted"@, Some(JsonV::Bool(granted)))
            + optional_entry("scopeName"@, opt_str_json(scope_name)),
    )
}

impl Uma2GrantPermissionToUserRequest {
    /// The JSON body of the grant; an absent scope name is left out.
    pub fn to_json(&self) -> (r: Json)
        ensures
            r@ == grant_json(self.resource@, self.requester@, self.granted, opt_view(self.scope_name)),
    {
        let mut es: Vec<(String, Json)> = Vec::new();
        push_entry(&mut es, "resource", Some(Json::Str(self.resource.clone())));
        push_entry(&mut es, "requester", Some(Json::Str(self.requester.clone())));
        push_entry(&mut es, "granted", Some(Json::Bool(self.granted)));
        let scope = match &self.scope_name {
            Some(s) => Some(Json::Str(s.clone())),
            None => None,
        };
        push_entry(&mut es, "scopeName", scope);
        let r = object(es);
        assert(r@->Object_0 =~= grant_json(self.resource@, self.requester@, self.granted, opt_view(self.scope_name))->Object_0);
        r
    }
}

/// The body of a permission ticket request; absent scopes and claims are left out.
pub open spec fn ticket_json(resource_id: Seq<char>, scopes: Option<Seq<Seq<char>>>, claims: Option<JsonV>) -> JsonV {
    JsonV::Object(
        optional_entry("resourceId"@, Some(JsonV::Str(resource_id)))
            + optional_entry("resourceScopes"@, opt_strings_json(scopes))
            + optional_entry("claims"@, claims),
    )
}

/// A key/value pair when the value is present, nothing otherwise.
pub open spec fn optional_pair(k: Seq<char>, v: Option<Seq<char>>) -> Seq<(Seq<char>, Seq<char>)> {
    match v {
        Some(x) => seq![(k, x)],
        None => Seq::empty(),
    }
}

/// One `permission` pair per requested permission, in order.
pub open spec fn permission_pairs(p: Option<Seq<Seq<char>>>) -> Seq<(Seq<char>, Seq<char>)> {
    match p {
        Some(s) => s.map_values(|x: Seq<char>| ("permission"@, x)),
        None => Seq::empty(),
    }
}

pub open spec fn opt_format_text(f: Option<Uma2ClaimTokenFormat>) -> Option<Seq<char>> {
    match f {
        Some(x) => Some(claim_token_format_text(x)),
        None => None,
    }
}

pub open spec fn opt_bool_text(b: Option<bool>) -> Option<Seq<char>> {
    match b {
        Some(x) => Some(bool_text(x)),
        None => None,
    }
}

pub open spec fn opt_decimal(n: Option<u32>) -> Option<Seq<char>> {
    match n {
        Some(x) => Some(decimal(x as nat)),
        None => None,
    }
}

/// The parameters of a ticket exchange: the grant type first, then each present
/// parameter in a fixed order, with one `permission` pair per permission.
pub open spec fn rpt_pairs(
    ticket: Option<Seq<char>>,
    claim_token: Option<Seq<char>>,
    claim_token_format: Option<Uma2ClaimTokenFormat>,
    rpt: Option<Seq<char>>,
    permission: Option<Seq<Seq<char>>>,
    audience: Option<Seq<char>>,
    response_include_resource_name: Option<bool>,
    response_permissions_limit: Option<u32>,
    submit_request: Option<bool>,
) -> Seq<(Seq<char>, Seq<char>)> {
    seq![("grant_type"@, "urn:ietf:params:oauth:grant-type:uma-ticket"@)]
        + optional_pair("ticket"@, ticket)
        + optional_pair("claim_token"@, claim_token)
        + optional_pair("claim_token_format"@, opt_format_text(claim_token_format))
        + optional_pair("rpt"@, rpt)
        + permission_pairs(permission)
        + optional_pair("audience"@, audience)
        + optional_pair("response_include_resource_name"@, opt_bool_text(response_include_resource_name))
        + optional_pair("response_permissions_limit"@, opt_decimal(response_permissions_limit))
        + optional_pair("submit_request"@, opt_bool_text(submit_request))
}

/// The query of a permission search: each present parameter in a fixed order,
/// the offset as `first` and the count as `max`.
pub open spec fn search_pairs(
    resource: Option<Seq<char>>,
    name: Option<Seq<char>>,
    scope: Option<Seq<char>>,
    offset: Option<u32>,
    count: Option<u32>,
) -> Seq<(Seq<char>, Seq<char>)> {
    optional_pair("resource"@, resource)
        + optional_pair("name"@, name)
        + optional_pair("scope"@, scope)
        + optional_pair("first"@, opt_decimal(offset))
        + optional_pair("max"@, opt_decimal(count))
}

fn push_pair(pairs: &mut Vec<(String, String)>, key: &str, value: Option<String>)
    ensures
        pairs_view(final(pairs)@) == pairs_view(old(pairs)@) + optional_pair(key@, opt_view(value)),
        final(pairs)@.len() <= old(pairs)@.len() + 1,
        pairs_bounded(old(pairs)@) && key@.len() <= MAX_URL_PART && (value matches Some(v) ==> v@.len()
            <= MAX_URL_PART) ==> pairs_bounded(final(pairs)@),
{
    let ghost before = pairs@;
    match value {
        Some(v) => {
            let ghost gv = v@;
            pairs.push((String::from_str(key), v));
            assert(pairs_view(pairs@) =~= pairs_view(before) + optional_pair(key@, Some(gv)));
        },
        None => {
            assert(pairs_view(pairs@) =~= pairs_view(before) + optional_pair(key@, None));
        },
    }
}

fn push_permissions(pairs: &mut Vec<(String, String)>, permission: &Option<Vec<String>>)
    ensures
        pairs_view(final(pairs)@) == pairs_view(old(pairs)@) + permission_pairs(opt_strings_view(*permission)),
{
    let ghost before = pairs@;
    match permission {
        Some(v) => {
            let mut i: usize = 0;
            while i < v.len()
                invariant
                    i <= v.len(),
                    pairs_view(pairs@) == pairs_view(before) + permission_pairs(Some(strings_of(v@.take(i as int)))),
                decreases v.len() - i,
            {
                let ghost prev = pairs@;
                pairs.push((String::from_str("permission"), v[i].clone()));
                assert(pairs_view(pairs@) =~= pairs_view(prev).push(("permission"@, v@[i as int]@)));
                assert(v@.take(i + 1) =~= v@.take(i as int).push(v@[i as int]));
                assert(permission_pairs(Some(strings_of(v@.take(i + 1)))) =~= permission_pairs(
                    Some(strings_of(v@.take(i as int))),
                ).push(("permission"@, v@[i as int]@)));
                i = i + 1;
            }
            assert(v@.take(v.len() as int) =~= v@);
            assert(pairs_view(pairs@) =~= pairs_view(before) + permission_pairs(opt_strings_view(*permission)));
        },
        None => {
            assert(pairs_view(pairs@) =~= pairs_view(before) + permission_pairs(None));
        },
    }
}

fn optional_decimal(n: Option<u32>) -> (r: Option<String>)
    ensures
        opt_view(r) == opt_decimal(n),
        r matches Some(s) ==> s@.len() <= 10,
{
    match n {
        Some(x) => Some(decimal_string(x)),
        None => None,
    }
}

fn optional_bool(b: Option<bool>) -> (r: Option<String>)
    ensures
        opt_view(r) == opt_bool_text(b),
{
    match b {
        Some(x) => Some(bool_string(x)),
        None => None,
    }
}

/// Builds the parameters of a ticket exchange.
pub fn rpt_form_pairs(
    ticket: Option<String>,
    claim_token: Option<String>,
    claim_token_format: Option<Uma2ClaimTokenFormat>,
    rpt: Option<String>,
    permission: &Option<Vec<String>>,
    audience: Option<String>,
    response_include_resource_name: Option<bool>,
    response_permissions_limit: Option<u32>,
    submit_request: Option<bool>,
) -> (r: Vec<(String, String)>)
    ensures
        pairs_view(r@) == rpt_pairs(
            opt_view(ticket),
            opt_view(claim_token),
            claim_token_format,
            opt_view(rpt),
            opt_strings_view(*permission),
            opt_view(audience),
            response_include_resource_name,
            response_permissions_limit,
            submit_request,
        ),
{
    let mut pairs: Vec<(String, String)> = Vec::new();
    push_pair(&mut pairs, "grant_type", Some(String::from_str("urn:ietf:params:oauth:grant-type:uma-ticket")));
    assert(pairs_view(pairs@) =~= seq![("grant_type"@, "urn:ietf:params:oauth:grant-type:uma-ticket"@)]);
    push_pair(&mut pairs, "ticket", ticket);
    push_pair(&mut pairs, "claim_token", claim_token);
    let format = match claim_token_format {
        Some(f) => Some(f.to_text()),
        None => None,
    };
    push_pair(&mut pairs, "claim_token_format", format);
    push_pair(&mut pairs, "rpt", rpt);
    push_permissions(&mut pairs, permission);
    push_pair(&mut pairs, "audience", audience);
    push_pair(&mut pairs, "response_include_resource_name", optional_bool(response_include_resource_name));
    push_pair(&mut pairs, "response_permissions_limit", optional_decimal(response_permissions_limit));
    push_pair(&mut pairs, "submit_request", optional_bool(submit_request));
    pairs
}

/// Builds the query of a permission search.
pub fn search_query_pairs(
    resource: Option<String>,
    name: Option<String>,
    scope: Option<String>,
    offset: Option<u32>,
    count: Option<u32>,
) -> (r: Vec<(String, String)>)
    ensures
        pairs_view(r@) == search_pairs(opt_view(resource), opt_view(name), opt_view(scope), offset, count),
        r@.len() <= 5,
        (resource matches Some(s) ==> s@.len() <= MAX_URL_PART) && (name matches Some(s) ==> s@.len()
            <= MAX_URL_PART) && (scope matches Some(s) ==> s@.len() <= MAX_URL_PART) ==> pairs_bounded(r@),
{
    let mut pairs: Vec<(String, String)> = Vec::new();
    proof {
        reveal_strlit("resource");
        reveal_strlit("name");
        reveal_strlit("scope");
        reveal_strlit("first");
        reveal_strlit("max");
    }
    push_pair(&mut pairs, "resource", resource);
    assert(pairs_view(pairs@) =~= optional_pair("resource"@, opt_view(resource)));
    push_pair(&mut pairs, "name", name);
    push_pair(&mut pairs, "scope", scope);
    push_pair(&mut pairs, "first", optional_decimal(offset));
    push_pair(&mut pairs, "max", optional_decimal(count));
    pairs
}


/// The values of the pairs named `k`, in order.
pub open spec fn values_of(pairs: Seq<(Seq<char>, Seq<char>)>, k: Seq<char>) -> Seq<Seq<char>>
    decreases pairs.len(),
{
    if pairs.len() == 0 {
        Seq::empty()
    } else {
        let rest = values_of(pairs.drop_first(), k);
        if pairs[0].0 == k {
            seq![pairs[0].1] + rest
        } else {
            rest
        }
    }
}

/// A present value as a one-element sequence, an absent one as the empty sequence.
pub open spec fn opt_seq(v: Option<Seq<char>>) -> Seq<Seq<char>> {
    match v {
        Some(x) => seq![x],
        None => Seq::empty(),
    }
}

pub broadcast proof fn lemma_values_of_concat(a: Seq<(Seq<char>, Seq<char>)>, b: Seq<(Seq<char>, Seq<char>)>, k: Seq<char>)
    ensures
        #[trigger] values_of(a + b, k) == values_of(a, k) + values_of(b, k),
    decreases a.len(),
{
    if a.len() == 0 {
        assert(a + b =~= b);
        assert(values_of(a, k) + values_of(b, k) =~= values_of(b, k));
    } else {
        assert((a + b).drop_first() =~= a.drop_first() + b);
        lemma_values_of_concat(a.drop_first(), b, k);
        assert(values_of(a + b, k) =~= values_of(a, k) + values_of(b, k));
    }
}

pub broadcast proof fn lemma_values_of_optional_pair(k0: Seq<char>, v: Option<Seq<char>>, k: Seq<char>)
    ensures
        #[trigger] values_of(optional_pair(k0, v), k) == if k0 == k {
            opt_seq(v)
        } else {
            Seq::empty()
        },
{
    let s = optional_pair(k0, v);
    if v is Some {
        assert(s.drop_first().len() == 0);
        assert(values_of(s.drop_first(), k) == Seq::<Seq<char>>::empty());
        assert(seq![s[0].1] + Seq::<Seq<char>>::empty() =~= seq![s[0].1]);
    }
}

proof fn lemma_values_of_permissions(p: Seq<Seq<char>>, k: Seq<char>)
    ensures
        values_of(permission_pairs(Some(p)), k) == if k == "permission"@ {
            p
        } else {
            Seq::empty()
        },
    decreases p.len(),
{
    let s = permission_pairs(Some(p));
    if p.len() > 0 {
        assert(s.drop_first() =~= permission_pairs(Some(p.drop_first())));
        lemma_values_of_permissions(p.drop_first(), k);
        if k == "permission"@ {
            assert(seq![p[0]] + p.drop_first() =~= p);
        }
    } else {
        assert(s.len() == 0);
    }
}

/// In the parameters of a ticket exchange, each optional parameter appears as one
/// pair when it is set and as none when it is unset, and the permissions appear
/// as exactly one `permission` pair each, in the order given.
pub proof fn lemma_rpt_pairs_values(
    ticket: Option<Seq<char>>,
    claim_token: Option<Seq<char>>,
    claim_token_format: Option<Uma2ClaimTokenFormat>,
    rpt: Option<Seq<char>>,
    permission: Option<Seq<Seq<char>>>,
    audience: Option<Seq<char>>,
    response_include_resource_name: Option<bool>,
    response_permissions_limit: Option<u32>,
    submit_request: Option<bool>,
)
    ensures
        ({
            let pairs = rpt_pairs(
                ticket,
                claim_token,
                claim_token_format,
                rpt,
                permission,
                audience,
                response_include_resource_name,
                response_permissions_limit,
                submit_request,
            );
            &&& values_of(pairs, "ticket"@) == opt_seq(ticket)
            &&& values_of(pairs, "claim_token"@) == opt_seq(claim_token)
            &&& values_of(pairs, "claim_token_format"@) == opt_seq(opt_format_text(claim_token_format))
            &&& values_of(pairs, "rpt"@) == opt_seq(rpt)
            &&& values_of(pairs, "audience"@) == opt_seq(audience)
            &&& values_of(pairs, "response_include_resource_name"@) == opt_seq(
                opt_bool_text(response_include_resource_name),
            )
            &&& values_of(pairs, "response_permissions_limit"@) == opt_seq(
                opt_decimal(response_permissions_limit),
            )
            &&& values_of(pairs, "submit_request"@) == opt_seq(opt_bool_text(submit_request))
            &&& values_of(pairs, "permission"@) == match permission {
                Some(p) => p,
                None => Seq::empty(),
            }
        }),
{
    broadcast use lemma_values_of_concat, lemma_values_of_optional_pair;

    reveal_strlit("grant_type");
    reveal_strlit("ticket");
    reveal_strlit("claim_token");
    reveal_strlit("claim_token_format");
    reveal_strlit("rpt");
    reveal_strlit("permission");
    reveal_strlit("audience");
    reveal_strlit("response_include_resource_name");
    reveal_strlit("response_permissions_limit");
    reveal_strlit("submit_request");
    assert("grant_type"@[0] != "permission"@[0]);
    assert("grant_type"@.len() == 10 && "ticket"@.len() == 6 && "claim_token"@.len() == 11);
    assert("claim_token_format"@.len() == 18 && "rpt"@.len() == 3 && "permission"@.len() == 10);
    assert("audience"@.len() == 8 && "response_include_resource_name"@.len() == 30);
    assert("response_permissions_limit"@.len() == 26 && "submit_request"@.len() == 14);
    let keys = seq![
        "ticket"@, "claim_token"@, "claim_token_format"@, "rpt"@, "permission"@, "audience"@,
        "response_include_resource_name"@, "response_permissions_limit"@, "submit_request"@,
    ];
    let grant = seq![("grant_type"@, "urn:ietf:params:oauth:grant-type:uma-ticket"@)];
    assert(grant =~= optional_pair("grant_type"@, Some("urn:ietf:params:oauth:grant-type:uma-ticket"@)));
    assert forall|i: int| 0 <= i < keys.len() implies values_of(permission_pairs(permission), #[trigger] keys[i])
        == if keys[i] == "permission"@ { match permission { Some(p) => p, None => Seq::empty() } } else { Seq::<Seq<char>>::empty() } by {
        match permission {
            Some(p) => lemma_values_of_permissions(p, keys[i]),
            None => {},
        }
    }
    assert(keys[0] == "ticket"@ && keys[1] == "claim_token"@ && keys[2] == "claim_token_format"@);
    assert(keys[3] == "rpt"@ && keys[4] == "permission"@ && keys[5] == "audience"@);
    assert(keys[6] == "response_include_resource_name"@ && keys[7] == "response_permissions_limit"@);
    assert(keys[8] == "submit_request"@);
    let pairs = rpt_pairs(
        ticket,
        claim_token,
        claim_token_format,
        rpt,
        permission,
        audience,
        response_include_resource_name,
        response_permissions_limit,
        submit_request,
    );
    assert(values_of(pairs, "ticket"@) =~= opt_seq(ticket));
    assert(values_of(pairs, "claim_token"@) =~= opt_seq(claim_token));
    assert(values_of(pairs, "claim_token_format"@) =~= opt_seq(opt_format_text(claim_token_format)));
    assert(values_of(pairs, "rpt"@) =~= opt_seq(rpt));
    assert(values_of(pairs, "audience"@) =~= opt_seq(audience));
    assert(values_of(pairs, "response_include_resource_name"@) =~= opt_seq(
        opt_bool_text(response_include_resource_name),
    ));
    assert(values_of(pairs, "response_permissions_limit"@) =~= opt_seq(opt_decimal(response_permissions_limit)));
    assert(values_of(pairs, "submit_request"@) =~= opt_seq(opt_bool_text(submit_request)));
    assert(values_of(pairs, "permission"@) =~= match permission {
        Some(p) => p,
        None => Seq::empty(),
    });
}

/// In the query of a permission search, each filter appears as one pair when it is
/// set and as none when it is unset; the offset is sent only as `first` and the
/// count only as `max`, both in decimal.
pub proof fn lemma_search_pairs_values(
    resource: Option<Seq<char>>,
    name: Option<Seq<char>>,
    scope: Option<Seq<char>>,
    offset: Option<u32>,
    count: Option<u32>,
)
    ensures
        ({
            let pairs = search_pairs(resource, name, scope, offset, count);
            &&& values_of(pairs, "resource"@) == opt_seq(resource)
            &&& values_of(pairs, "name"@) == opt_seq(name)
            &&& values_of(pairs, "scope"@) == opt_seq(scope)
            &&& values_of(pairs, "first"@) == opt_seq(opt_decimal(offset))
            &&& values_of(pairs, "max"@) == opt_seq(opt_decimal(count))
            &&& values_of(pairs, "offset"@).len() == 0
            &&& values_of(pairs, "count"@).len() == 0
        }),
{
    broadcast use lemma_values_of_concat, lemma_values_of_optional_pair;

    reveal_strlit("resource");
    reveal_strlit("name");
    reveal_strlit("scope");
    reveal_strlit("first");
    reveal_strlit("max");
    reveal_strlit("offset");
    reveal_strlit("count");
    assert("resource"@.len() == 8 && "name"@.len() == 4 && "scope"@.len() == 5 && "first"@.len() == 5);
    assert("max"@.len() == 3 && "offset"@.len() == 6 && "count"@.len() == 5);
    assert("scope"@[0] != "first"@[0] && "scope"@[0] != "count"@[0] && "first"@[0] != "count"@[0]);
    let pairs = search_pairs(resource, name, scope, offset, count);
    assert(values_of(pairs, "resource"@) =~= opt_seq(resource));
    assert(values_of(pairs, "name"@) =~= opt_seq(name));
    assert(values_of(pairs, "scope"@) =~= opt_seq(scope));
    assert(values_of(pairs, "first"@) =~= opt_seq(opt_decimal(offset)));
    assert(values_of(pairs, "max"@) =~= opt_seq(opt_decimal(count)));
}

/// A UMA2 client: the endpoints it talks to. Each operation checks its
/// preconditions against them and prepares the one request that the transport
/// sends; the answer is then read by the matching function of `response`.
#[derive(Debug, Clone)]
pub struct Client {
    pub provider: Uma2Endpoints,
}

/// The failure of an operation that needs the permission endpoint, before any request.
pub open spec fn permission_precondition(p: Uma2Endpoints) -> Option<Uma2Error> {
    if !p.discovered {
        Some(Uma2Error::NoUma2Discovered)
    } else if p.permission_endpoint is None {
        Some(Uma2Error::NoPermissionsEndpoint)
    } else {
        None
    }
}

/// The failure of an operation that needs the policy endpoint, before any request.
pub open spec fn policy_precondition(p: Uma2Endpoints) -> Option<Uma2Error> {
    if !p.discovered {
        Some(Uma2Error::NoUma2Discovered)
    } else if p.policy_endpoint is None {
        Some(Uma2Error::NoPolicyAssociationEndpoint)
    } else {
        None
    }
}

/// The failure of a ticket exchange before any request.
pub open spec fn rpt_precondition(p: Uma2Endpoints, permission: Option<Seq<Seq<char>>>, audience_present: bool) -> Option<Uma2Error> {
    if !p.discovered {
        Some(Uma2Error::NoUma2Discovered)
    } else if permission matches Some(s) && s.len() == 0 && !audience_present {
        Some(Uma2Error::AudienceFieldRequired)
    } else {
        None
    }
}

/// The request that a policy-endpoint operation on `segment` sends, given the
/// endpoint with that segment appended.
pub open spec fn segment_outcome(
    extended: Option<Seq<char>>,
    malformed: Uma2Error,
    method: HttpMethod,
    token: Seq<char>,
    accept_json: bool,
    body: BodyV,
) -> Result<RequestV, ClientErrorV> {
    match extended {
        Some(u) => Ok(json_request(method, u, token, accept_json, body)),
        None => Err(ClientErrorV::Uma2(malformed)),
    }
}

pub open spec fn request_result(r: Result<Uma2Request, ClientError>) -> Result<RequestV, ClientErrorV> {
    match r {
        Ok(q) => Ok(q@),
        Err(e) => Err(e@),
    }
}

/// The fields of a new or updated permission association.
pub open spec fn association_body(
    id: Option<Seq<char>>,
    name: Seq<char>,
    description: Seq<char>,
    scopes: Seq<Seq<char>>,
    roles: Option<Seq<Seq<char>>>,
    groups: Option<Seq<Seq<char>>>,
    clients: Option<Seq<Seq<char>>>,
    owner: Option<Seq<char>>,
    permission_type: Option<Seq<char>>,
    logic: Option<Uma2PermissionLogic>,
    decision_strategy: Option<Uma2PermissionDecisionStrategy>,
) -> BodyV {
    BodyV::Json(association_json(AssociationV {
        id, name, description, scopes, roles, groups, clients, owner, permission_type, logic, decision_strategy,
    }))
}

impl Client {
    /// Prepares the creation of a permission ticket for a resource.
    pub fn create_uma2_permission_ticket(
        &self,
        pat_token: String,
        resource_id: String,
        resource_scopes: Option<Vec<String>>,
        claims: Option<Json>,
    ) -> (r: Result<Uma2Request, ClientError>)
        ensures
            request_result(r) == match permission_precondition(self.provider) {
                Some(e) => Err(ClientErrorV::Uma2(e)),
                None => Ok(json_request(
                    HttpMethod::Post,
                    self.provider.permission_endpoint->Some_0@,
                    pat_token@,
                    false,
                    BodyV::Json(ticket_json(resource_id@, opt_strings_view(resource_scopes), opt_json_view(claims))),
                )),
            },
    {
        if !self.provider.uma2_discovered() {
            return Err(ClientError::Uma2(Uma2Error::NoUma2Discovered));
        }
        let url = match self.provider.permission_uri() {
            Some(u) => u.clone(),
            None => {
                return Err(ClientError::Uma2(Uma2Error::NoPermissionsEndpoint));
            },
        };
        let mut es: Vec<(String, Json)> = Vec::new();
        push_entry(&mut es, "resourceId", Some(Json::Str(resource_id)));
        push_entry(&mut es, "resourceScopes", optional_strings_json(&resource_scopes));
        let ghost claims_view = opt_json_view(claims);
        push_entry(&mut es, "claims", claims);
        let body = object(es);
        assert(body@->Object_0 =~= ticket_json(resource_id@, opt_strings_view(resource_scopes), claims_view)->Object_0);
        Ok(make_json_request(HttpMethod::Post, url, &pat_token, false, RequestBody::Json(body)))
    }

    /// Prepares the grant of a resource (and optionally one scope of it) to a requesting user.
    pub fn grant_permission_to_user(
        &self,
        token: String,
        resource_id: String,
        requester: String,
        scope_name: Option<String>,
    ) -> (r: Result<Uma2Request, ClientError>)
        requires
            self.provider.within_limits(),
        ensures
            request_result(r) == match permission_precondition(self.provider) {
                Some(e) => Err(ClientErrorV::Uma2(e)),
                None => segment_outcome(
                    url_with_segment(self.provider.permission_endpoint->Some_0@, "ticket"@),
                    Uma2Error::PermissionEndpointMalformed,
                    HttpMethod::Post,
                    token@,
                    true,
                    BodyV::Json(grant_json(resource_id@, requester@, true, opt_view(scope_name))),
                ),
            },
    {
        if !self.provider.uma2_discovered() {
            return Err(ClientError::Uma2(Uma2Error::NoUma2Discovered));
        }
        let base = match self.provider.permission_uri() {
            Some(u) => u,
            None => {
                return Err(ClientError::Uma2(Uma2Error::NoPermissionsEndpoint));
            },
        };
        proof {
            reveal_strlit("ticket");
        }
        let url = match append_path_segment(base.as_str(), "ticket") {
            Some(u) => u,
            None => {
                return Err(ClientError::Uma2(Uma2Error::PermissionEndpointMalformed));
            },
        };
        let request = Uma2GrantPermissionToUserRequest {
            resource: resource_id,
            requester,
            granted: true,
            scope_name,
        };
        let body = request.to_json();
        Ok(make_json_request(HttpMethod::Post, url, &token, true, RequestBody::Json(body)))
    }

    /// Prepares the exchange of a ticket, claims or permissions for a requesting party token.
    pub fn obtain_requesting_party_token(
        &self,
        token: String,
        auth_method: Uma2AuthenticationMethod,
        ticket: Option<String>,
        claim_token: Option<String>,
        claim_token_format: Option<Uma2ClaimTokenFormat>,
        rpt: Option<String>,
        permission: Option<Vec<String>>,
        audience: Option<String>,
        response_include_resource_name: Option<bool>,
        response_permissions_limit: Option<u32>,
        submit_request: Option<bool>,
    ) -> (r: Result<Uma2Request, ClientError>)
        ensures
            request_result(r) == match rpt_precondition(self.provider, opt_strings_view(permission), audience is Some) {
                Some(e) => Err(ClientErrorV::Uma2(e)),
                None => Ok(RequestV {
                    method: HttpMethod::Post,
                    url: self.provider.token_endpoint@,
                    authorization: match auth_method {
                        Uma2AuthenticationMethod::Bearer => bearer_header(token@),
                        Uma2AuthenticationMethod::Basic => basic_header(token@),
                    },
                    content_type: "application/x-www-form-urlencoded"@,
                    accept_json: false,
                    body: BodyV::Form(form_urlencoded_of(rpt_pairs(
                        opt_view(ticket),
                        opt_view(claim_token),
                        claim_token_format,
                        opt_view(rpt),
                        opt_strings_view(permission),
                        opt_view(audience),
                        response_include_resource_name,
                        response_permissions_limit,
                        submit_request,
                    ))),
                }),
            },
    {
        if !self.provider.uma2_discovered() {
            return Err(ClientError::Uma2(Uma2Error::NoUma2Discovered));
        }
        if let Some(p) = &permission {
            if p.len() == 0 && audience.is_none() {
                return Err(ClientError::Uma2(Uma2Error::AudienceFieldRequired));
            }
        }
        let pairs = rpt_form_pairs(
            ticket,
            claim_token,
            claim_token_format,
            rpt,
            &permission,
            audience,
            response_include_resource_name,
            response_permissions_limit,
            submit_request,
        );
        let body = form_encode(&pairs);
        let authorization = match auth_method {
            Uma2AuthenticationMethod::Basic => basic(&token),
            Uma2AuthenticationMethod::Bearer => bearer(&token),
        };
        Ok(Uma2Request {
            method: HttpMethod::Post,
            url: self.provider.token_uri().clone(),
            authorization,
            content_type: String::from_str("application/x-www-form-urlencoded"),
            accept_json: false,
            body: RequestBody::Form(body),
        })
    }

    /// Prepares the association of a new permission with a resource.
    pub fn associate_uma2_resource_with_a_permission(
        &self,
        token: String,
        resource_id: String,
        name: String,
        description: String,
        scopes: Vec<String>,
        roles: Option<Vec<String>>,
        groups: Option<Vec<String>>,
        clients: Option<Vec<String>>,
        owner: Option<String>,
        logic: Option<Uma2PermissionLogic>,
        decision_strategy: Option<Uma2PermissionDecisionStrategy>,
    ) -> (r: Result<Uma2Request, ClientError>)
        requires
            self.provider.within_limits(),
            resource_id@.len() <= MAX_URL_PART,
        ensures
            request_result(r) == match policy_precondition(self.provider) {
                Some(e) => Err(ClientErrorV::Uma2(e)),
                None => segment_outcome(
                    url_with_segment(self.provider.policy_endpoint->Some_0@, resource_id@),
                    Uma2Error::PolicyAssociationEndpointMalformed,
                    HttpMethod::Post,
                    token@,
                    false,
                    association_body(None, name@, description@, strings_of(scopes@), opt_strings_view(roles),
                        opt_strings_view(groups), opt_strings_view(clients), opt_view(owner), None, logic, decision_strategy),
                ),
            },
    {
        if !self.provider.uma2_discovered() {
            return Err(ClientError::Uma2(Uma2Error::NoUma2Discovered));
        }
        let base = match self.provider.uma_policy_uri() {
            Some(u) => u,
            None => {
                return Err(ClientError::Uma2(Uma2Error::NoPolicyAssociationEndpoint));
            },
        };
        let url = match append_path_segment(base.as_str(), resource_id.as_str()) {
            Some(u) => u,
            None => {
                return Err(ClientError::Uma2(Uma2Error::PolicyAssociationEndpointMalformed));
            },
        };
        let permission = Uma2PermissionAssociation {
            id: None,
            name,
            description,
            scopes,
            roles,
            groups,
            clients,
            owner,
            permission_type: None,
            logic,
            decision_strategy,
        };
        let body = permission.to_json();
        Ok(make_json_request(HttpMethod::Post, url, &token, false, RequestBody::Json(body)))
    }

    /// Prepares the update of the permission association `id`; the body carries the
    /// id and the permission type `uma`.
    pub fn update_uma2_resource_permission(
        &self,
        id: String,
        token: String,
        name: String,
        description: String,
        scopes: Vec<String>,
        roles: Option<Vec<String>>,
        groups: Option<Vec<String>>,
        clients: Option<Vec<String>>,
        owner: Option<String>,
        logic: Option<Uma2PermissionLogic>,
        decision_strategy: Option<Uma2PermissionDecisionStrategy>,
    ) -> (r: Result<Uma2Request, ClientError>)
        requires
            self.provider.within_limits(),
            id@.len() <= MAX_URL_PART,
        ensures
            request_result(r) == match policy_precondition(self.provider) {
                Some(e) => Err(ClientErrorV::Uma2(e)),
                None => segment_outcome(
                    url_with_segment(self.provider.policy_endpoint->Some_0@, id@),
                    Uma2Error::PolicyAssociationEndpointMalformed,
                    HttpMethod::Put,
                    token@,
                    false,
                    association_body(Some(id@), name@, description@, strings_of(scopes@), opt_strings_view(roles),
                        opt_strings_view(groups), opt_strings_view(clients), opt_view(owner), Some("uma"@), logic,
                        decision_strategy),
                ),
            },
    {
        if !self.provider.uma2_discovered() {
            return Err(ClientError::Uma2(Uma2Error::NoUma2Discovered));
        }
        let base = match self.provider.uma_policy_uri() {
            Some(u) => u,
            None => {
                return Err(ClientError::Uma2(Uma2Error::NoPolicyAssociationEndpoint));
            },
        };
        let url = match append_path_segment(base.as_str(), id.as_str()) {
            Some(u) => u,
            None => {
                return Err(ClientError::Uma2(Uma2Error::PolicyAssociationEndpointMalformed));
            },
        };
        let permission = Uma2PermissionAssociation {
            id: Some(id),
            name,
            description,
            scopes,
            roles,
            groups,
            clients,
            owner,
            permission_type: Some(String::from_str("uma")),
            logic,
            decision_strategy,
        };
        let body = permission.to_json();
        Ok(make_json_request(HttpMethod::Put, url, &token, false, RequestBody::Json(body)))
    }

    /// Prepares the deletion of the permission association `id`.
    pub fn delete_uma2_resource_permission(&self, id: String, token: String) -> (r: Result<Uma2Request, ClientError>)
        requires
            self.provider.within_limits(),
            id@.len() <= MAX_URL_PART,
        ensures
            request_result(r) == match policy_precondition(self.provider) {
                Some(e) => Err(ClientErrorV::Uma2(e)),
                None => segment_outcome(
                    url_with_segment(self.provider.policy_endpoint->Some_0@, id@),
                    Uma2Error::PolicyAssociationEndpointMalformed,
                    HttpMethod::Delete,
                    token@,
                    false,
                    BodyV::Empty,
                ),
            },
    {
        if !self.provider.uma2_discovered() {
            return Err(ClientError::Uma2(Uma2Error::NoUma2Discovered));
        }
        let base = match self.provider.uma_policy_uri() {
            Some(u) => u,
            None => {
                return Err(ClientError::Uma2(Uma2Error::NoPolicyAssociationEndpoint));
            },
        };
        let url = match append_path_segment(base.as_str(), id.as_str()) {
            Some(u) => u,
            None => {
                return Err(ClientError::Uma2(Uma2Error::PolicyAssociationEndpointMalformed));
            },
        };
        Ok(make_json_request(HttpMethod::Delete, url, &token, false, RequestBody::Empty))
    }

    /// Prepares a search of the permission associations; only the present filters
    /// are sent, the offset as `first` and the count as `max`.
    pub fn search_for_uma2_resource_permission(
        &self,
        token: String,
        resource: Option<String>,
        name: Option<String>,
        scope: Option<String>,
        offset: Option<u32>,
        count: Option<u32>,
    ) -> (r: Result<Uma2Request, ClientError>)
        requires
            self.provider.within_limits(),
            resource matches Some(s) ==> s@.len() <= MAX_URL_PART,
            name matches Some(s) ==> s@.len() <= MAX_URL_PART,
            scope matches Some(s) ==> s@.len() <= MAX_URL_PART,
        ensures
            request_result(r) == match policy_precondition(self.provider) {
                Some(e) => Err(ClientErrorV::Uma2(e)),
                None => segment_outcome(
                    url_with_query(
                        self.provider.policy_endpoint->Some_0@,
                        search_pairs(opt_view(resource), opt_view(name), opt_view(scope), offset, count),
                    ),
                    Uma2Error::PolicyAssociationEndpointMalformed,
                    HttpMethod::Get,
                    token@,
                    false,
                    BodyV::Empty,
                ),
            },
    {
        if !self.provider.uma2_discovered() {
            return Err(ClientError::Uma2(Uma2Error::NoUma2Discovered));
        }
        let base = match self.provider.uma_policy_uri() {
            Some(u) => u,
            None => {
                return Err(ClientError::Uma2(Uma2Error::NoPolicyAssociationEndpoint));
            },
        };
        let pairs = search_query_pairs(resource, name, scope, offset, count);
        let url = match append_query_pairs(base.as_str(), &pairs) {
            Some(u) => u,
            None => {
                return Err(ClientError::Uma2(Uma2Error::PolicyAssociationEndpointMalformed));
            },
        };
        Ok(make_json_request(HttpMethod::Get, url, &token, false, RequestBody::Empty))
    }
}

} // verus!
