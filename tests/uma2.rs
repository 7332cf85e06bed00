use uma2_client::error::{ClientError, Uma2Error};
use uma2_client::json::Json;
use uma2_client::permission::{
    decode_associations, Uma2PermissionAssociation, Uma2PermissionDecisionStrategy,
    Uma2PermissionLogic,
};
use uma2_client::request::{HttpMethod, RequestBody, Uma2Request};
use uma2_client::requesting_party_token::{
    RequestingPartyToken, RequestingPartyTokenAuthorization,
    RequestingPartyTokenAuthorizationPermission, StandardClaims,
};
use uma2_client::response::{passthrough_response, search_response, token_response, unit_response};
use uma2_client::text::decimal_string;
use uma2_client::uma2::{
    rpt_form_pairs, Client, Uma2AuthenticationMethod, Uma2ClaimTokenFormat, Uma2Endpoints,
};

fn s(x: &str) -> String {
    x.to_string()
}

fn client(discovered: bool, permission: Option<&str>, policy: Option<&str>) -> Client {
    Client {
        provider: Uma2Endpoints {
            discovered,
            permission_endpoint: permission.map(s),
            policy_endpoint: policy.map(s),
            token_endpoint: s("https://auth/token"),
        },
    }
}

fn full_client() -> Client {
    client(true, Some("https://auth/perm"), Some("https://auth/policy"))
}

fn obj(entries: Vec<(&str, Json)>) -> Json {
    Json::Object(entries.into_iter().map(|(k, v)| (s(k), v)).collect())
}

fn jstr(x: &str) -> Json {
    Json::Str(s(x))
}

fn error_body() -> Json {
    obj(vec![("error", jstr("invalid_grant")), ("error_description", jstr("x"))])
}

fn uma2_err(r: Result<Uma2Request, ClientError>) -> Uma2Error {
    match r {
        Err(ClientError::Uma2(e)) => e,
        other => panic!("expected a protocol error, got {:?}", other),
    }
}

fn rpt_call(c: &Client, permission: Option<Vec<String>>, audience: Option<String>) -> Result<Uma2Request, ClientError> {
    c.obtain_requesting_party_token(
        s("tok"),
        Uma2AuthenticationMethod::Bearer,
        None,
        None,
        None,
        None,
        permission,
        audience,
        None,
        None,
        None,
    )
}

fn all_operations(c: &Client) -> Vec<Result<Uma2Request, ClientError>> {
    vec![
        c.create_uma2_permission_ticket(s("t"), s("r1"), None, None),
        c.grant_permission_to_user(s("t"), s("r1"), s("alice"), None),
        rpt_call(c, None, None),
        c.associate_uma2_resource_with_a_permission(
            s("t"), s("r1"), s("n"), s("d"), vec![s("read")], None, None, None, None, None, None,
        ),
        c.update_uma2_resource_permission(
            s("id1"), s("t"), s("n"), s("d"), vec![s("read")], None, None, None, None, None, None,
        ),
        c.delete_uma2_resource_permission(s("id1"), s("t")),
        c.search_for_uma2_resource_permission(s("t"), None, None, None, None, None),
    ]
}

#[test]
fn undiscovered_client_fails_every_operation() {
    let c = client(false, Some("https://auth/perm"), Some("https://auth/policy"));
    for r in all_operations(&c) {
        assert_eq!(uma2_err(r), Uma2Error::NoUma2Discovered);
    }
}

#[test]
fn missing_permission_endpoint_is_reported() {
    let c = client(true, None, Some("https://auth/policy"));
    let ops = all_operations(&c);
    let mut it = ops.into_iter();
    assert_eq!(uma2_err(it.next().unwrap()), Uma2Error::NoPermissionsEndpoint);
    assert_eq!(uma2_err(it.next().unwrap()), Uma2Error::NoPermissionsEndpoint);
}

#[test]
fn missing_policy_endpoint_is_reported() {
    let c = client(true, Some("https://auth/perm"), None);
    let ops: Vec<_> = all_operations(&c).into_iter().skip(3).collect();
    assert_eq!(ops.len(), 4);
    for r in ops {
        assert_eq!(uma2_err(r), Uma2Error::NoPolicyAssociationEndpoint);
    }
}

#[test]
fn empty_permission_without_audience_is_refused() {
    let c = full_client();
    assert_eq!(uma2_err(rpt_call(&c, Some(vec![]), None)), Uma2Error::AudienceFieldRequired);
    assert!(rpt_call(&c, Some(vec![]), Some(s("rs"))).is_ok());
    assert!(rpt_call(&c, Some(vec![s("r1#read")]), None).is_ok());
    assert!(rpt_call(&c, None, None).is_ok());
}

#[test]
fn form_body_holds_only_set_parameters() {
    let c = full_client();
    let q = rpt_call(&c, None, None).unwrap();
    assert_eq!(q.method, HttpMethod::Post);
    assert_eq!(q.url, "https://auth/token");
    assert_eq!(q.content_type, "application/x-www-form-urlencoded");
    assert_eq!(q.authorization, "Bearer tok");
    match q.body {
        RequestBody::Form(b) => assert_eq!(b, "grant_type=urn%3Aietf%3Aparams%3Aoauth%3Agrant-type%3Auma-ticket"),
        other => panic!("unexpected body {:?}", other),
    }
}

#[test]
fn form_body_repeats_permission_in_order() {
    let pairs = rpt_form_pairs(
        Some(s("tk")),
        None,
        Some(Uma2ClaimTokenFormat::Jwt),
        None,
        &Some(vec![s("a"), s("b"), s("c")]),
        Some(s("rs")),
        Some(true),
        Some(42),
        Some(false),
    );
    let keys: Vec<&str> = pairs.iter().map(|p| p.0.as_str()).collect();
    assert_eq!(
        keys,
        vec![
            "grant_type",
            "ticket",
            "claim_token_format",
            "permission",
            "permission",
            "permission",
            "audience",
            "response_include_resource_name",
            "response_permissions_limit",
            "submit_request"
        ]
    );
    let values: Vec<&str> = pairs.iter().map(|p| p.1.as_str()).collect();
    assert_eq!(values[2], "urn:ietf:params:oauth:token-type:jwt");
    assert_eq!(&values[3..6], &["a", "b", "c"]);
    assert_eq!(&values[7..], &["true", "42", "false"]);
}

#[test]
fn form_body_is_url_encoded() {
    let c = full_client();
    let q = c
        .obtain_requesting_party_token(
            s("secret"),
            Uma2AuthenticationMethod::Basic,
            None,
            None,
            None,
            None,
            Some(vec![s("r 1#read"), s("r2")]),
            None,
            None,
            Some(7),
            None,
        )
        .unwrap();
    assert_eq!(q.authorization, "Basic secret");
    match q.body {
        RequestBody::Form(b) => assert_eq!(
            b,
            "grant_type=urn%3Aietf%3Aparams%3Aoauth%3Agrant-type%3Auma-ticket&permission=r+1%23read&permission=r2&response_permissions_limit=7"
        ),
        other => panic!("unexpected body {:?}", other),
    }
}

#[test]
fn error_body_is_upstream_error_for_every_kind_of_result() {
    for r in [unit_response(&error_body()).err(), token_response(&error_body()).err(),
        search_response(&error_body()).err(), passthrough_response(error_body()).err()] {
        match r {
            Some(ClientError::OAuth2(e)) => {
                assert_eq!(e.error, "invalid_grant");
                assert_eq!(e.error_description, Some(s("x")));
                assert_eq!(e.error_uri, None);
            },
            other => panic!("expected an upstream error, got {:?}", other),
        }
    }
}

#[test]
fn success_bodies_decode() {
    assert!(unit_response(&obj(vec![])).is_ok());
    let bearer = obj(vec![("access_token", jstr("abc")), ("token_type", jstr("Bearer")),
        ("expires_in", Json::Number(s("300")))]);
    assert_eq!(token_response(&bearer).unwrap(), "abc");
    let listed = Json::Array(vec![obj(vec![
        ("id", jstr("p1")),
        ("name", jstr("n")),
        ("description", jstr("d")),
        ("scopes", Json::Array(vec![jstr("read")])),
        ("logic", jstr("NEGATIVE")),
    ])]);
    let found = search_response(&listed).unwrap();
    assert_eq!(found.len(), 1);
    assert_eq!(found[0].id, Some(s("p1")));
    assert_eq!(found[0].scopes, vec![s("read")]);
    assert_eq!(found[0].logic, Some(Uma2PermissionLogic::Negative));
    assert_eq!(found[0].roles, None);
    match passthrough_response(obj(vec![("ok", Json::Bool(true))])) {
        Ok(Json::Object(es)) => assert_eq!(es.len(), 1),
        other => panic!("unexpected {:?}", other),
    }
}

#[test]
fn body_that_is_neither_error_nor_result_is_decode_failure() {
    assert!(matches!(token_response(&obj(vec![("token", jstr("abc"))])), Err(ClientError::Decode)));
    assert!(matches!(search_response(&obj(vec![])), Err(ClientError::Decode)));
    assert!(matches!(search_response(&Json::Array(vec![jstr("x")])), Err(ClientError::Decode)));
    let not_error = obj(vec![("error", Json::Bool(true))]);
    assert!(unit_response(&not_error).is_ok());
}

#[test]
fn search_pagination_uses_first_and_max() {
    let c = full_client();
    let q = c
        .search_for_uma2_resource_permission(s("t"), None, None, None, Some(10), Some(5))
        .unwrap();
    assert_eq!(q.method, HttpMethod::Get);
    assert_eq!(q.url, "https://auth/policy?first=10&max=5");
    assert!(matches!(q.body, RequestBody::Empty));
}

#[test]
fn search_filters_come_in_fixed_order() {
    let c = full_client();
    let q = c
        .search_for_uma2_resource_permission(s("t"), Some(s("r1")), Some(s("a b")), Some(s("read")), None, None)
        .unwrap();
    assert_eq!(q.url, "https://auth/policy?resource=r1&name=a+b&scope=read");
}

fn assoc_update() -> Uma2PermissionAssociation {
    Uma2PermissionAssociation {
        id: Some(s("abc")),
        name: s("n"),
        description: s("d"),
        scopes: vec![s("read"), s("write")],
        roles: Some(vec![s("admin")]),
        groups: None,
        clients: Some(vec![]),
        owner: None,
        permission_type: Some(s("uma")),
        logic: Some(Uma2PermissionLogic::Positive),
        decision_strategy: Some(Uma2PermissionDecisionStrategy::Consensus),
    }
}

#[test]
fn association_round_trips_through_json() {
    let a = assoc_update();
    let back = Uma2PermissionAssociation::from_json(&a.to_json()).unwrap();
    assert_eq!(back.id, a.id);
    assert_eq!(back.name, a.name);
    assert_eq!(back.description, a.description);
    assert_eq!(back.scopes, a.scopes);
    assert_eq!(back.roles, a.roles);
    assert_eq!(back.groups, a.groups);
    assert_eq!(back.clients, a.clients);
    assert_eq!(back.owner, a.owner);
    assert_eq!(back.permission_type, a.permission_type);
    assert_eq!(back.logic, a.logic);
    assert_eq!(back.decision_strategy, a.decision_strategy);
    let list = decode_associations(&Json::Array(vec![a.to_json()])).unwrap();
    assert_eq!(list.len(), 1);
}

#[test]
fn association_json_leaves_out_absent_fields() {
    match assoc_update().to_json() {
        Json::Object(es) => {
            let keys: Vec<&str> = es.iter().map(|e| e.0.as_str()).collect();
            assert_eq!(keys, vec!["id", "name", "description", "scopes", "roles", "clients", "type", "logic", "decisionStrategy"]);
        },
        other => panic!("unexpected {:?}", other),
    }
}

#[test]
fn update_sends_put_with_id_and_type() {
    let c = full_client();
    let q = c
        .update_uma2_resource_permission(
            s("abc"), s("t"), s("n"), s("d"), vec![s("read")], None, None, None, None, None, None,
        )
        .unwrap();
    assert_eq!(q.method, HttpMethod::Put);
    assert_eq!(q.url, "https://auth/policy/abc");
    match q.body {
        RequestBody::Json(j) => {
            let a = Uma2PermissionAssociation::from_json(&j).unwrap();
            assert_eq!(a.id, Some(s("abc")));
            assert_eq!(a.permission_type, Some(s("uma")));
        },
        other => panic!("unexpected body {:?}", other),
    }
}

#[test]
fn associate_and_delete_extend_the_policy_path() {
    let c = full_client();
    let q = c
        .associate_uma2_resource_with_a_permission(
            s("t"), s("r 1"), s("n"), s("d"), vec![], None, None, None, None, None, None,
        )
        .unwrap();
    assert_eq!(q.method, HttpMethod::Post);
    assert_eq!(q.url, "https://auth/policy/r%201");
    let d = c.delete_uma2_resource_permission(s("x"), s("t")).unwrap();
    assert_eq!(d.method, HttpMethod::Delete);
    assert_eq!(d.url, "https://auth/policy/x");
    assert_eq!(d.authorization, "Bearer t");
}

#[test]
fn opaque_endpoint_is_malformed() {
    let c = client(true, Some("mailto:someone@example.com"), Some("mailto:x@example.com"));
    assert_eq!(
        uma2_err(c.grant_permission_to_user(s("t"), s("r1"), s("alice"), None)),
        Uma2Error::PermissionEndpointMalformed
    );
    assert_eq!(
        uma2_err(c.delete_uma2_resource_permission(s("x"), s("t"))),
        Uma2Error::PolicyAssociationEndpointMalformed
    );
}

#[test]
fn grant_posts_to_ticket_path() {
    let c = full_client();
    let q = c.grant_permission_to_user(s("t"), s("r1"), s("alice"), Some(s("read"))).unwrap();
    assert_eq!(q.url, "https://auth/perm/ticket");
    assert!(q.accept_json);
    match q.body {
        RequestBody::Json(Json::Object(es)) => {
            let keys: Vec<&str> = es.iter().map(|e| e.0.as_str()).collect();
            assert_eq!(keys, vec!["resource", "requester", "granted", "scopeName"]);
            assert!(matches!(es[2].1, Json::Bool(true)));
        },
        other => panic!("unexpected body {:?}", other),
    }
}

#[test]
fn create_ticket_scenario() {
    let c = full_client();
    let q = c
        .create_uma2_permission_ticket(s("pat"), s("r1"), Some(vec![s("read")]), None)
        .unwrap();
    assert_eq!(q.method, HttpMethod::Post);
    assert_eq!(q.url, "https://auth/perm");
    assert_eq!(q.content_type, "application/json");
    assert_eq!(q.authorization, "Bearer pat");
    match &q.body {
        RequestBody::Json(Json::Object(es)) => {
            assert_eq!(es.len(), 2);
            assert_eq!(es[0].0, "resourceId");
            assert!(matches!(&es[0].1, Json::Str(v) if v == "r1"));
            assert_eq!(es[1].0, "resourceScopes");
            match &es[1].1 {
                Json::Array(items) => {
                    assert_eq!(items.len(), 1);
                    assert!(matches!(&items[0], Json::Str(v) if v == "read"));
                },
                other => panic!("unexpected scopes {:?}", other),
            }
        },
        other => panic!("unexpected body {:?}", other),
    }
    assert!(unit_response(&obj(vec![])).is_ok());
}

#[test]
fn decimal_text_is_exact() {
    assert_eq!(decimal_string(0), "0");
    assert_eq!(decimal_string(10), "10");
    assert_eq!(decimal_string(4294967295), "4294967295");
}

#[test]
fn rpt_claims_expose_standard_claims() {
    let t = RequestingPartyToken {
        authorization: RequestingPartyTokenAuthorization {
            permissions: vec![RequestingPartyTokenAuthorizationPermission {
                resource_set_id: s("r1"),
                resource_set_name: s("doc"),
            }],
        },
        standard_claims: StandardClaims {
            iss: s("https://auth"),
            sub: s("alice"),
            aud: vec![s("rs")],
            exp: 10,
            iat: 1,
            auth_time: None,
            nonce: None,
            azp: None,
        },
    };
    assert_eq!(t.standard_claims().sub, "alice");
    assert_eq!(t.authorization.permissions[0].resource_set_name, "doc");
}
