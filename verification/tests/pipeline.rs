use axum_jwt::authorize;
use axum_jwt::layer;
use axum_jwt::Admission;
use axum_jwt::AuthorizationExtract;
use axum_jwt::Discard;
use axum_jwt::Bearer;
use axum_jwt::Claims;
use axum_jwt::Decoder;
use axum_jwt::Error;
use axum_jwt::Headers;
use axum_jwt::Jwt;
use axum_jwt::JwtFuture;
use axum_jwt::Key;
use axum_jwt::Output;
use axum_jwt::Predicate;
use axum_jwt::Response;
use axum_jwt::Token;
use jsonwebtoken::EncodingKey;
use jsonwebtoken::Header;

use serde_json::Value;
use std::marker::PhantomData;
use std::time::SystemTime;
use std::time::UNIX_EPOCH;

/// A downstream handler stub; each clone is a distinct generation, so a test
/// can tell which instance it was handed.
#[derive(Debug, PartialEq)]
struct Handler {
    generation: u32,
}

impl Clone for Handler {
    fn clone(&self) -> Self {
        Handler { generation: self.generation + 1 }
    }
}

fn now_secs() -> u64 {
    SystemTime::now().duration_since(UNIX_EPOCH).unwrap().as_secs()
}

fn claims_with(sub: &str, exp: u64) -> Value {
    let mut m = serde_json::Map::new();
    m.insert("sub".to_string(), Value::String(sub.to_string()));
    m.insert("exp".to_string(), Value::from(exp));
    Value::Object(m)
}

fn claims_with_roles(roles: &[&str]) -> Value {
    let mut m = serde_json::Map::new();
    let list: Vec<Value> = roles.iter().map(|r| Value::String(r.to_string())).collect();
    m.insert("roles".to_string(), Value::Array(list));
    m.insert("exp".to_string(), Value::from(now_secs() + 3600));
    Value::Object(m)
}

fn sign(claims: &Value, secret: &[u8]) -> String {
    jsonwebtoken::encode(&Header::default(), claims, &EncodingKey::from_secret(secret)).unwrap()
}

fn bearer_headers(token: &str) -> Headers {
    let mut h = Headers::new();
    h.append(b"Authorization".to_vec(), format!("Bearer {token}").into_bytes());
    h
}

fn secret_decoder() -> Decoder {
    Decoder::from_key(Key::from_secret(&b"secret".to_vec()))
}

#[test]
fn valid_token_reaches_forwarding_with_claims() {
    let mut jwt = layer(secret_decoder()).layer(Handler { generation: 0 });
    let token = sign(&claims_with("alice", now_secs() + 3600), b"secret");
    let r: JwtFuture<Handler, u32, ()> = jwt.call(&bearer_headers(&token), 42u32);
    let (svc, req, decoded) = r.begin_forward();
    assert_eq!(req, 42);
    assert_eq!(svc.generation, 0);
    assert_eq!(decoded.claims.get("sub").unwrap().as_str().unwrap(), "alice");
}

#[test]
fn missing_header_is_rejected_unauthorized() {
    let mut jwt = layer(secret_decoder()).layer(Handler { generation: 0 });
    let h = Headers::new();
    let r: JwtFuture<Handler, u32, ()> = jwt.call(&h, 1u32);
    match r {
        JwtFuture::Ready { res } => assert_eq!(res.status, 401),
        _ => panic!("request without a token must be rejected"),
    }
    assert_eq!(jwt.svc.generation, 0);
}

#[test]
fn expired_token_is_rejected_unauthorized() {
    let mut jwt = layer(secret_decoder()).layer(Handler { generation: 0 });
    let token = sign(&claims_with("late", now_secs() - 3600), b"secret");
    let r: JwtFuture<Handler, u32, ()> = jwt.call(&bearer_headers(&token), 1u32);
    match r {
        JwtFuture::Ready { res } => assert_eq!(res.status, 401),
        _ => panic!("expired token must be rejected"),
    }
    assert_eq!(jwt.svc.generation, 0);
}

#[test]
fn foreign_signature_is_rejected_unauthorized() {
    let mut jwt = layer(secret_decoder()).layer(Handler { generation: 0 });
    let token = sign(&claims_with("mallory", now_secs() + 3600), b"other-secret");
    let r: JwtFuture<Handler, u32, ()> = jwt.call(&bearer_headers(&token), 1u32);
    match r {
        JwtFuture::Ready { res } => assert_eq!(res.status, 401),
        _ => panic!("foreign signature must be rejected"),
    }
}

fn requires_admin(t: &Token<Value>) -> bool {
    match t.claims.get("roles").and_then(|r| r.as_array()) {
        Some(list) => list.iter().any(|v| v.as_str() == Some("admin")),
        None => false,
    }
}

#[test]
fn predicate_denies_claims_without_admin_role() {
    let f: fn(&Token<Value>) -> bool = requires_admin;
    let mut jwt: Jwt<Handler, Predicate<Value, fn(&Token<Value>) -> bool, bool>, Bearer> = Jwt {
        svc: Handler { generation: 0 },
        decoder: secret_decoder(),
        validate: Predicate::new(f),
        store: false,
        extract: PhantomData,
    };
    let token = sign(&claims_with_roles(&["user"]), b"secret");
    let r: JwtFuture<Handler, u32, ()> = jwt.call(&bearer_headers(&token), 1u32);
    match r {
        JwtFuture::Ready { res } => assert_eq!(res.status, 401),
        _ => panic!("denied claims must never reach the downstream handler"),
    }
    assert_eq!(jwt.svc.generation, 0);
}

#[test]
fn predicate_admits_claims_with_admin_role() {
    let f: fn(&Token<Value>) -> bool = requires_admin;
    let mut jwt: Jwt<Handler, Predicate<Value, fn(&Token<Value>) -> bool, bool>, Bearer> = Jwt {
        svc: Handler { generation: 0 },
        decoder: secret_decoder(),
        validate: Predicate::new(f),
        store: false,
        extract: PhantomData,
    };
    let token = sign(&claims_with_roles(&["admin"]), b"secret");
    let r: JwtFuture<Handler, u32, ()> = jwt.call(&bearer_headers(&token), 1u32);
    assert!(matches!(r, JwtFuture::NotReady { .. }));
}

#[test]
fn overlapping_forwards_get_independent_handles() {
    let mut jwt = layer(secret_decoder()).layer(Handler { generation: 0 });
    let token = sign(&claims_with("alice", now_secs() + 3600), b"secret");
    let first: JwtFuture<Handler, u8, ()> = jwt.call(&bearer_headers(&token), 1u8);
    let second: JwtFuture<Handler, u8, ()> = jwt.call(&bearer_headers(&token), 2u8);
    let (svc_one, req_one, _) = first.begin_forward();
    let (svc_two, req_two, _) = second.begin_forward();
    assert_eq!(req_one, 1);
    assert_eq!(req_two, 2);
    assert_eq!(svc_one.generation, 0);
    assert_eq!(svc_two.generation, 1);
    assert_ne!(svc_one, svc_two);
}

#[test]
fn second_key_admits_through_the_pipeline() {
    let decoder = Decoder::with_keys(
        vec![Key::from_secret(&b"first-key".to_vec()), Key::from_secret(&b"second-key".to_vec())],
        jsonwebtoken::Validation::default(),
    )
    .unwrap();
    let mut jwt = layer(decoder).layer(Handler { generation: 0 });
    let token = sign(&claims_with("bob", now_secs() + 3600), b"second-key");
    let r: JwtFuture<Handler, u8, ()> = jwt.call(&bearer_headers(&token), 3u8);
    assert!(matches!(r, JwtFuture::NotReady { .. }));
}

#[test]
fn builder_configuration_is_kept() {
    let l = layer(secret_decoder());
    assert!(!l.store);
    let l = l.store_to_extension();
    assert!(l.store);
    let jwt = l.layer(Handler { generation: 0 });
    assert!(jwt.store);
    assert_eq!(jwt.svc.generation, 0);
}

#[test]
fn alternate_extractor_runs_the_pipeline() {
    let l = layer(secret_decoder()).with_extract(AuthorizationExtract);
    let mut jwt = l.layer(Handler { generation: 0 });
    let token = sign(&claims_with("alice", now_secs() + 3600), b"secret");
    let r: JwtFuture<Handler, u8, ()> = jwt.call(&bearer_headers(&token), 1u8);
    assert!(matches!(r, JwtFuture::NotReady { .. }));
}

#[test]
fn filtered_layer_applies_the_filter() {
    let f: fn(&Token<Value>) -> bool = requires_admin;
    let l = layer(secret_decoder()).with_filter(Predicate::new(f));
    assert!(!l.store);
    let mut jwt: Jwt<Handler, Predicate<Value, fn(&Token<Value>) -> bool, bool>, Bearer> = Jwt {
        svc: Handler { generation: 0 },
        decoder: l.decoder,
        validate: l.validate,
        store: l.store,
        extract: PhantomData,
    };
    let token = sign(&claims_with_roles(&["user"]), b"secret");
    let r: JwtFuture<Handler, u8, ()> = jwt.call(&bearer_headers(&token), 1u8);
    assert!(matches!(r, JwtFuture::Ready { .. }));
}

#[test]
fn bool_output_maps_to_unauthorized() {
    assert_eq!(true.output(), None);
    assert_eq!(false.output(), Some(Response { status: 401 }));
}

#[test]
fn result_output_keeps_custom_response() {
    let allow: Result<(), Response> = Ok(());
    assert_eq!(allow.output(), None);
    let deny: Result<(), Response> = Err(Response::with_status(418));
    assert_eq!(deny.output(), Some(Response { status: 418 }));
}

#[test]
fn error_responses_hide_the_cause() {
    assert_eq!(Error::<Response>::Extract.into_response().status, 401);
    let jwt_err = match secret_decoder().decode("bad") {
        Err(e) => e,
        Ok(_) => panic!("malformed token must fail decode"),
    };
    assert_eq!(Error::<Response>::Jwt(jwt_err).into_response().status, 401);
    let custom = Error::<Response>::Custom(Response::with_status(403));
    assert_eq!(custom.into_response().status, 403);
}

#[test]
fn error_map_touches_only_the_custom_variant() {
    let e: Error<u8> = Error::Custom(7);
    match e.map(|x: u8| x + 1) {
        Error::Custom(v) => assert_eq!(v, 8),
        _ => panic!("custom variant must stay custom"),
    }
    let e: Error<u8> = Error::Extract;
    assert!(matches!(e.map(|x: u8| x + 1), Error::Extract));
}

#[test]
fn rejection_future_resolves_to_its_response() {
    let fut: JwtFuture<Handler, u8, ()> = JwtFuture::ready(Response::with_status(401));
    assert_eq!(fut.finish().status, 401);
}

#[test]
fn called_future_holds_the_downstream_future() {
    let fut: JwtFuture<Handler, u8, u32> = JwtFuture::called(9u32);
    assert!(matches!(fut, JwtFuture::Called { fut: 9 }));
}

#[test]
fn token_packs_header_and_claims() {
    let t = Token::new(Header::default(), 5u8);
    assert_eq!(t.claims, 5);
    let c = Claims(3u8);
    assert_eq!(c.0, 3);
}

fn deny_with_teapot(t: &Token<Value>) -> Result<(), Response> {
    if t.claims.get("sub").and_then(|s| s.as_str()) == Some("alice") {
        Ok(())
    } else {
        Err(Response::with_status(418))
    }
}

#[test]
fn custom_rejection_response_reaches_the_caller() {
    let f: fn(&Token<Value>) -> Result<(), Response> = deny_with_teapot;
    let mut jwt: Jwt<Handler, Predicate<Value, fn(&Token<Value>) -> Result<(), Response>, Result<(), Response>>, Bearer> =
        Jwt {
            svc: Handler { generation: 0 },
            decoder: secret_decoder(),
            validate: Predicate::new(f),
            store: false,
            extract: PhantomData,
        };
    let token = sign(&claims_with("eve", now_secs() + 3600), b"secret");
    let r: JwtFuture<Handler, u8, ()> = jwt.call(&bearer_headers(&token), 1u8);
    match r {
        JwtFuture::Ready { res } => assert_eq!(res.status, 418),
        _ => panic!("denied claims must be rejected with the custom response"),
    }
    let token = sign(&claims_with("alice", now_secs() + 3600), b"secret");
    let r: JwtFuture<Handler, u8, ()> = jwt.call(&bearer_headers(&token), 2u8);
    assert!(matches!(r, JwtFuture::NotReady { .. }));
}

#[test]
fn authorize_forwards_allowed_and_rejects_failed_decodes() {
    let mut decision = Discard;
    let decoder = secret_decoder();
    let token = sign(&claims_with("alice", now_secs() + 3600), b"secret");
    match authorize(&mut decision, decoder.decode(&token)) {
        Admission::Forward(t) => {
            assert_eq!(t.claims.get("sub").unwrap().as_str().unwrap(), "alice");
        },
        Admission::Reject(_) => panic!("an allowed decode must be forwarded"),
    }
    match authorize(&mut decision, decoder.decode("garbage")) {
        Admission::Reject(res) => assert_eq!(res.status, 401),
        Admission::Forward(_) => panic!("a failed decode must be rejected"),
    }
}
