use task_backend::auth_middleware::{
    strip_bearer, AuthDecision, AuthMiddleware, AuthMiddlewareMiddleware, AuthRejection,
    MiddlewareReply, RequestIdentity,
};
use task_backend::clock::unix_now;
use task_backend::http::{StatusCode, TextReply};
use task_backend::jwt::{create_access_token, issue_at, TokenConfig, TokenKind};

fn config() -> TokenConfig {
    TokenConfig::new("access-secret".to_string(), "refresh-secret".to_string())
}

fn middleware() -> AuthMiddlewareMiddleware {
    AuthMiddleware::new(config()).new_transform()
}

fn missing() -> TextReply {
    TextReply {
        status: StatusCode::Unauthorized,
        body: "Authorization header missing or invalid".to_string(),
    }
}

fn invalid() -> TextReply {
    TextReply { status: StatusCode::Unauthorized, body: "Invalid token".to_string() }
}

#[test]
fn rejections_are_401_with_exact_bodies() {
    assert_eq!(AuthRejection::MissingCredentials.reply(), missing());
    assert_eq!(AuthRejection::InvalidToken.reply(), invalid());
    assert_eq!(AuthRejection::MissingCredentials.reply().status.code(), 401);
    assert_eq!(AuthRejection::InvalidToken.reply().status.code(), 401);
    assert_eq!(
        AuthRejection::MissingCredentials.message(),
        "Authorization header missing or invalid"
    );
    assert_eq!(AuthRejection::InvalidToken.message(), "Invalid token");
}

#[test]
fn bearer_prefix_is_matched_exactly() {
    assert_eq!(strip_bearer("Bearer abc"), Some("abc"));
    assert_eq!(strip_bearer("Bearer "), Some(""));
    assert_eq!(strip_bearer("Bearer  abc"), Some(" abc"));
    assert_eq!(strip_bearer("Bearer a b"), Some("a b"));
    assert_eq!(strip_bearer("Bearer tökén"), Some("tökén"));
    assert_eq!(strip_bearer("Bearer"), None);
    assert_eq!(strip_bearer("bearer abc"), None);
    assert_eq!(strip_bearer("BEARER abc"), None);
    assert_eq!(strip_bearer(" Bearer abc"), None);
    assert_eq!(strip_bearer("Bearer\tabc"), None);
    assert_eq!(strip_bearer("Basic xyz"), None);
    assert_eq!(strip_bearer(""), None);
    assert_eq!(strip_bearer("Béarer abc"), None);
}

#[test]
fn request_without_header_is_rejected() {
    let mw = middleware();
    assert_eq!(mw.authorize(None), AuthDecision::Reject(AuthRejection::MissingCredentials));
    let mut called = false;
    let reply = mw.call(None, |_identity: RequestIdentity| {
        called = true;
        200u16
    });
    assert_eq!(reply, MiddlewareReply::Rejected(missing()));
    assert!(!called);
}

#[test]
fn request_with_wrong_scheme_is_rejected_alike() {
    let mw = middleware();
    assert_eq!(
        mw.authorize(Some("Basic xyz")),
        AuthDecision::Reject(AuthRejection::MissingCredentials)
    );
    let with_scheme: MiddlewareReply<u16> =
        mw.call(Some("Basic xyz"), |_identity: RequestIdentity| 200u16);
    let without: MiddlewareReply<u16> = mw.call(None, |_identity: RequestIdentity| 200u16);
    assert_eq!(with_scheme, MiddlewareReply::Rejected(missing()));
    assert_eq!(with_scheme, without);
}

#[test]
fn request_with_expired_token_is_rejected() {
    let mw = middleware();
    let now = unix_now();
    let token = issue_at(&config(), "u1", TokenKind::Access, now - 900).unwrap();
    let header = format!("Bearer {}", token);
    assert_eq!(mw.authorize(Some(&header)), AuthDecision::Reject(AuthRejection::InvalidToken));
    let mut called = false;
    let reply = mw.call(Some(&header), |_identity: RequestIdentity| {
        called = true;
        200u16
    });
    assert_eq!(reply, MiddlewareReply::Rejected(invalid()));
    assert!(!called);
}

#[test]
fn request_with_valid_token_reaches_the_handler() {
    let mw = middleware();
    let token = create_access_token(&config(), "64b7f0c2a1d4e5f6a7b8c9d0").unwrap();
    let header = format!("Bearer {}", token);
    assert_eq!(
        mw.authorize(Some(&header)),
        AuthDecision::Forward(RequestIdentity { subject: "64b7f0c2a1d4e5f6a7b8c9d0".to_string() })
    );
    let mut seen = None;
    let reply = mw.call(Some(&header), |identity: RequestIdentity| {
        seen = Some(identity.subject);
        (404u16, "Task not found".to_string())
    });
    assert_eq!(reply, MiddlewareReply::Handled((404u16, "Task not found".to_string())));
    assert_eq!(seen, Some("64b7f0c2a1d4e5f6a7b8c9d0".to_string()));
}

#[test]
fn decision_at_a_given_instant() {
    let mw = middleware();
    let token = issue_at(&config(), "u1", TokenKind::Access, 5_000).unwrap();
    let header = format!("Bearer {}", token);
    assert_eq!(
        mw.authorize_at(Some(&header), 5_899),
        AuthDecision::Forward(RequestIdentity { subject: "u1".to_string() })
    );
    assert_eq!(
        mw.authorize_at(Some(&header), 5_900),
        AuthDecision::Reject(AuthRejection::InvalidToken)
    );
    assert_eq!(
        mw.authorize_at(Some(&token), 5_000),
        AuthDecision::Reject(AuthRejection::MissingCredentials)
    );
    assert_eq!(
        mw.authorize_at(Some("Bearer "), 5_000),
        AuthDecision::Reject(AuthRejection::InvalidToken)
    );
    assert_eq!(
        mw.authorize_at(Some("Bearer not-a-token"), 5_000),
        AuthDecision::Reject(AuthRejection::InvalidToken)
    );
    let lower = format!("bearer {}", token);
    assert_eq!(
        mw.authorize_at(Some(&lower), 5_000),
        AuthDecision::Reject(AuthRejection::MissingCredentials)
    );
    let reply = mw.call_at(Some(&header), 5_000, |identity: RequestIdentity| identity.subject);
    assert_eq!(reply, MiddlewareReply::Handled("u1".to_string()));
    let reply = mw.call_at(Some(&header), 5_900, |identity: RequestIdentity| identity.subject);
    assert_eq!(reply, MiddlewareReply::Rejected(invalid()));
}

#[test]
fn refresh_token_does_not_open_a_protected_route() {
    let mw = middleware();
    let token = issue_at(&config(), "u1", TokenKind::Refresh, 5_000).unwrap();
    let header = format!("Bearer {}", token);
    assert_eq!(
        mw.authorize_at(Some(&header), 5_000),
        AuthDecision::Reject(AuthRejection::InvalidToken)
    );
}

#[test]
fn every_middleware_of_a_factory_checks_the_same_secrets() {
    let factory = AuthMiddleware::new(config());
    let first = factory.new_transform();
    let second = factory.new_transform();
    assert_eq!(first.config.access_secret, "access-secret");
    assert_eq!(second.config.refresh_secret, "refresh-secret");
    let token = issue_at(&factory.config, "u1", TokenKind::Access, 5_000).unwrap();
    let header = format!("Bearer {}", token);
    assert_eq!(first.authorize_at(Some(&header), 5_000), second.authorize_at(Some(&header), 5_000));
}
