use cuo::credentials::{
    credential_plan, resolve_credential, resume_credential, ssh_user, verdict, AuthError,
    CredRequest, Environment, Resolution, Verdict,
};
use cuo::methods::{AllowedMethods, DEFAULT_BIT, PLAINTEXT_BIT, SSH_KEY_BIT, USERNAME_BIT};

fn env(token: Option<&str>, user: Option<&str>, username: Option<&str>, home: Option<&str>) -> Environment {
    Environment {
        token: token.map(|s| s.to_string()),
        user: user.map(|s| s.to_string()),
        username: username.map(|s| s.to_string()),
        home: home.map(|s| s.to_string()),
    }
}

fn resolved_request(r: Resolution) -> CredRequest {
    match r {
        Resolution::Resolved(c) => c.request,
        Resolution::Failed(e) => panic!("failed: {:?}", e),
        Resolution::AskHelper { next, .. } => panic!("asked for the helper before {}", next),
    }
}

fn failure(r: Resolution) -> Option<AuthError> {
    match r {
        Resolution::Failed(e) => Some(e),
        _ => None,
    }
}

#[test]
fn ssh_user_takes_first_available() {
    let e = env(None, Some("u1"), Some("u2"), None);
    assert_eq!(ssh_user(Some("offered"), &Some("helper".to_string()), &e), "offered");
    assert_eq!(ssh_user(None, &Some("helper".to_string()), &e), "helper");
    assert_eq!(ssh_user(None, &None, &e), "u1");
    assert_eq!(ssh_user(None, &None, &env(None, None, Some("u2"), None)), "u2");
    assert_eq!(ssh_user(None, &None, &env(None, None, None, None)), "git");
}

#[test]
fn default_only_plans_default_alone() {
    let m = AllowedMethods::from_bits(DEFAULT_BIT);
    let e = env(Some("tok"), Some("me"), None, Some("/home/me"));
    let plan = credential_plan(&m, Some("git"), &None, &e).unwrap();
    assert_eq!(plan, vec![CredRequest::Default]);
}

#[test]
fn default_only_resolves_to_default() {
    let cfg = git2::Config::new().unwrap();
    let m = AllowedMethods::from_bits(DEFAULT_BIT);
    let e = env(Some("tok"), Some("me"), None, Some("/home/me"));
    let r = resolve_credential("https://example.com/r.git", None, &m, &cfg, &e);
    assert_eq!(resolved_request(r), CredRequest::Default);
}

#[test]
fn token_follows_failed_ssh_tries() {
    let m = AllowedMethods::from_bits(SSH_KEY_BIT | PLAINTEXT_BIT);
    let e = env(Some("tok123"), Some("me"), None, Some("/home/me"));
    let plan = credential_plan(&m, None, &None, &e).unwrap();
    assert_eq!(
        plan,
        vec![
            CredRequest::SshAgent { username: "me".to_string() },
            CredRequest::SshKeyFile {
                username: "me".to_string(),
                private_key: "/home/me/.ssh/id_rsa".to_string(),
            },
            CredRequest::Plaintext { username: String::new(), password: "tok123".to_string() },
        ]
    );
    assert_eq!(verdict(&plan[0], false), Verdict::TryNext);
    assert_eq!(verdict(&plan[1], false), Verdict::TryNext);
    assert_eq!(verdict(&plan[2], true), Verdict::Use);
    assert_eq!(verdict(&plan[2], false), Verdict::Fail);
}

#[test]
fn username_only_is_refused_at_once() {
    let cfg = git2::Config::new().unwrap();
    let m = AllowedMethods::from_bits(USERNAME_BIT);
    let e = env(Some("tok"), None, None, None);
    let r = resolve_credential("ssh://git@example.com/r.git", Some("git"), &m, &cfg, &e);
    assert_eq!(failure(r), Some(AuthError::UsernameOnly));
    let all = AllowedMethods::from_bits(USERNAME_BIT | SSH_KEY_BIT | PLAINTEXT_BIT | DEFAULT_BIT);
    assert_eq!(credential_plan(&all, None, &None, &e), Err(AuthError::UsernameOnly));
}

#[test]
fn plaintext_without_token_or_helper_finds_nothing() {
    let cfg = git2::Config::new().unwrap();
    let m = AllowedMethods::from_bits(PLAINTEXT_BIT);
    let e = env(None, Some("me"), None, Some("/home/me"));
    let plan = credential_plan(&m, None, &None, &e).unwrap();
    assert_eq!(plan, vec![CredRequest::Helper]);
    assert_eq!(verdict(&plan[0], false), Verdict::TryNext);
    match resolve_credential("https://example.com/r.git", None, &m, &cfg, &e) {
        Resolution::AskHelper { plan, next } => {
            assert_eq!(plan, vec![CredRequest::Helper]);
            assert_eq!(next, 1);
            assert_eq!(failure(resume_credential(plan, next)), Some(AuthError::NoneAvailable));
        }
        _ => panic!("the helper was not asked for"),
    }
}

#[test]
fn failed_helper_falls_back_to_default() {
    let cfg = git2::Config::new().unwrap();
    let m = AllowedMethods::from_bits(PLAINTEXT_BIT | DEFAULT_BIT);
    let e = env(None, None, None, None);
    match resolve_credential("https://example.com/r.git", None, &m, &cfg, &e) {
        Resolution::AskHelper { plan, next } => {
            assert_eq!(plan, vec![CredRequest::Helper, CredRequest::Default]);
            assert_eq!(next, 1);
            assert_eq!(resolved_request(resume_credential(plan, next)), CredRequest::Default);
        }
        _ => panic!("the helper was not asked for"),
    }
}

#[test]
fn token_with_nul_fails_without_fallback() {
    let cfg = git2::Config::new().unwrap();
    let m = AllowedMethods::from_bits(PLAINTEXT_BIT | DEFAULT_BIT);
    let e = env(Some("to\0k"), None, None, None);
    let r = resolve_credential("https://example.com/r.git", None, &m, &cfg, &e);
    assert_eq!(failure(r), Some(AuthError::CredentialFailed));
}

#[test]
fn resuming_past_the_end_finds_nothing() {
    let plan = vec![CredRequest::Default];
    assert_eq!(failure(resume_credential(plan.clone(), 1)), Some(AuthError::NoneAvailable));
    assert_eq!(failure(resume_credential(plan.clone(), 5)), Some(AuthError::NoneAvailable));
    assert_eq!(resolved_request(resume_credential(plan, 0)), CredRequest::Default);
}

#[test]
fn token_is_sent_as_password() {
    let cfg = git2::Config::new().unwrap();
    let m = AllowedMethods::from_bits(PLAINTEXT_BIT | DEFAULT_BIT);
    let e = env(Some("tok"), None, None, None);
    let r = resolve_credential("https://example.com/r.git", None, &m, &cfg, &e);
    assert_eq!(
        resolved_request(r),
        CredRequest::Plaintext { username: String::new(), password: "tok".to_string() }
    );
}

#[test]
fn ssh_without_home_tries_agent_only() {
    let m = AllowedMethods::from_bits(SSH_KEY_BIT);
    let e = env(None, None, None, None);
    let plan = credential_plan(&m, Some("alice"), &None, &e).unwrap();
    assert_eq!(plan, vec![CredRequest::SshAgent { username: "alice".to_string() }]);
}

#[test]
fn nothing_accepted_finds_nothing() {
    let cfg = git2::Config::new().unwrap();
    let m = AllowedMethods::from_bits(0);
    let e = env(Some("tok"), None, None, None);
    let r = resolve_credential("https://example.com/r.git", None, &m, &cfg, &e);
    assert_eq!(failure(r), Some(AuthError::NoneAvailable));
}
