use koushin::auth::{
    authorization_code, authorization_url, bearer, code_challenge, code_from_lookup,
    needs_refresh, new_code_verifier, refresh_request_form, refreshed, token_request_form,
    AuthConfig, AuthEvent, AuthRequest, AuthStage, CODE_VERIFIER_LENGTH, TOKEN_URL,
};
use koushin::error::KoushinError;

fn pairs(form: &[(String, String)]) -> Vec<(&str, &str)> {
    form.iter().map(|(k, v)| (k.as_str(), v.as_str())).collect()
}

fn tokens(access: &str, refresh: &str) -> AuthConfig {
    AuthConfig { access_token: access.to_string(), refresh_token: refresh.to_string() }
}

#[test]
fn verifier_shape() {
    let v = new_code_verifier();
    assert_eq!(v.chars().count(), CODE_VERIFIER_LENGTH);
    assert!(v.chars().all(|c| c.is_ascii_alphanumeric() || c == '_' || c == '-'));
    let w = new_code_verifier();
    assert_ne!(v, w);
}

#[test]
fn authorization_page() {
    let challenge = code_challenge("abc-_XYZ");
    assert_eq!(challenge, "abc-_XYZ");
    assert_eq!(
        authorization_url("client42", &challenge),
        "https://myanimelist.net/v1/oauth2/authorize?response_type=code&client_id=client42&code_challenge=abc-_XYZ"
    );
}

#[test]
fn code_from_callback() {
    match authorization_code("/?code=def502&state=x") {
        Ok(c) => assert_eq!(c, "def502"),
        Err(_) => panic!("the code is there"),
    }
    match authorization_code("/?code=a%20b") {
        Ok(c) => assert_eq!(c, "a b"),
        Err(_) => panic!("the code is there"),
    }
    assert!(matches!(authorization_code("/?state=x"), Err(KoushinError::MissingAuthorizationCode)));
    assert!(matches!(authorization_code("/callback?code=1"), Err(KoushinError::MissingAuthorizationCode)));
    assert!(matches!(authorization_code("/?é"), Err(KoushinError::UnreadableCallback)));
    assert!(matches!(authorization_code("/?code=x&é=1"), Err(KoushinError::UnreadableCallback)));
    assert!(matches!(code_from_lookup(None), Err(KoushinError::MissingAuthorizationCode)));
    assert!(matches!(code_from_lookup(Some("x".to_string())), Ok(ref c) if c == "x"));
}

#[test]
fn token_forms() {
    assert_eq!(TOKEN_URL, "https://myanimelist.net/v1/oauth2/token");
    assert_eq!(
        pairs(&token_request_form("cid", "code1", "ver")),
        vec![("client_id", "cid"), ("code", "code1"), ("code_verifier", "ver"), ("grant_type", "authorization_code")]
    );
    assert_eq!(
        pairs(&refresh_request_form("cid", "rt")),
        vec![("client_id", "cid"), ("refresh_token", "rt"), ("grant_type", "refresh_token")]
    );
    assert_eq!(bearer("tok"), "Bearer tok");
}

#[test]
fn refresh_decision() {
    assert!(!needs_refresh(200));
    assert!(!needs_refresh(204));
    assert!(!needs_refresh(299));
    assert!(needs_refresh(199));
    assert!(needs_refresh(300));
    assert!(needs_refresh(401));
    let r = refreshed(tokens("old", "keep"), "new".to_string());
    assert_eq!(r.access_token, "new");
    assert_eq!(r.refresh_token, "keep");
}

#[test]
fn flow_with_stored_working_tokens() {
    let (stage, req) = AuthConfig::new();
    assert!(matches!(req, AuthRequest::CheckStored));
    let (stage, req) = AuthConfig::step(stage, AuthEvent::StoredChecked(true));
    assert!(matches!(req, AuthRequest::ReadStored));
    let (stage, req) = AuthConfig::step(stage, AuthEvent::StoredRead(tokens("acc", "ref"), "cid".to_string()));
    match req {
        AuthRequest::RequestUserInfo { authorization } => assert_eq!(authorization, "Bearer acc"),
        _ => panic!("expected a request of the account"),
    }
    let (stage, req) = AuthConfig::step(stage, AuthEvent::UserInfoStatus(200));
    assert!(matches!(req, AuthRequest::ReadFinal));
    let (stage, req) = AuthConfig::step(stage, AuthEvent::FinalRead(tokens("acc", "ref")));
    assert!(matches!(stage, AuthStage::Done));
    match req {
        AuthRequest::Finish(c) => assert_eq!(c.access_token, "acc"),
        _ => panic!("expected the tokens"),
    }
}

#[test]
fn flow_with_authorization_and_refresh() {
    let (stage, _) = AuthConfig::new();
    let (stage, req) = AuthConfig::step(stage, AuthEvent::StoredChecked(false));
    assert!(matches!(req, AuthRequest::Authorize));
    let (stage, req) = AuthConfig::step(stage, AuthEvent::Authorized);
    assert!(matches!(req, AuthRequest::ReadStored));
    let (stage, _) = AuthConfig::step(stage, AuthEvent::StoredRead(tokens("stale", "ref"), "cid".to_string()));
    assert!(!AuthConfig::accepts(&stage, &AuthEvent::Saved));
    let (stage, req) = AuthConfig::step(stage, AuthEvent::UserInfoStatus(401));
    match req {
        AuthRequest::RequestRefresh { form } => assert_eq!(
            pairs(&form),
            vec![("client_id", "cid"), ("refresh_token", "ref"), ("grant_type", "refresh_token")]
        ),
        _ => panic!("expected a refresh"),
    }
    let (stage, req) = AuthConfig::step(stage, AuthEvent::RefreshedToken("fresh".to_string()));
    match req {
        AuthRequest::Save { config, notice } => {
            assert_eq!(config.access_token, "fresh");
            assert_eq!(config.refresh_token, "ref");
            assert_eq!(notice, "\x1b[36mAccess token refreshed!\x1b[0m");
        }
        _ => panic!("expected the new tokens to be stored"),
    }
    let (stage, req) = AuthConfig::step(stage, AuthEvent::Saved);
    assert!(matches!(req, AuthRequest::ReadFinal));
    assert!(AuthConfig::accepts(&stage, &AuthEvent::FinalRead(tokens("fresh", "ref"))));
}
